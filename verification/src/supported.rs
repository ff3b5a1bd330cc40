//! Discovery of the filesystem drivers the running kernel offers.
//!
//! The kernel's registry is a line-oriented text: a line holding a single
//! name lists a device-backed driver, a line holding `nodev` and then a name
//! lists a driver that needs no block device, and any other line is ignored.
use vstd::prelude::*;

verus! {

/// The characters that separate the words of a registry line.
///
/// The registry is ASCII, so the ASCII separators suffice.
pub open spec fn is_space(c: char) -> bool {
    c == ' ' || c == '\t' || c == '\r' || c == '\x0b' || c == '\x0c' || c == '\n'
}

/// The text split at every newline: one entry per line, in order.
///
/// Text without a newline is a single line, so the empty text is one empty
/// line, and a trailing newline yields a final empty line.
pub open spec fn split_lines(s: Seq<char>) -> Seq<Seq<char>>
    decreases s.len(),
{
    if s.len() == 0 {
        seq![s]
    } else if s[0] == '\n' {
        seq![Seq::<char>::empty()] + split_lines(s.skip(1))
    } else {
        let rest = split_lines(s.skip(1));
        seq![seq![s[0]] + rest[0]] + rest.skip(1)
    }
}

/// The maximal runs of non-separator characters of a line, in order.
pub open spec fn tokens(s: Seq<char>) -> Seq<Seq<char>>
    decreases s.len(),
{
    if s.len() == 0 {
        Seq::empty()
    } else if is_space(s[0]) {
        tokens(s.skip(1))
    } else {
        let rest = tokens(s.skip(1));
        if s.len() > 1 && !is_space(s[1]) {
            seq![seq![s[0]] + rest[0]] + rest.skip(1)
        } else {
            seq![seq![s[0]]] + rest
        }
    }
}

/// What a registry line contributes: `(needs no device, driver name)` for a
/// well-formed line, nothing for a line of any other shape.
///
/// A line with one word names a device-backed driver. A line whose first
/// word is `nodev` names, in its second word, a driver that is not backed
/// by a device; further words are ignored. Every other line is skipped.
pub open spec fn classify_line(line: Seq<char>) -> Option<(bool, Seq<char>)> {
    let ts = tokens(line);
    if ts.len() == 1 {
        Some((false, ts[0]))
    } else if ts.len() >= 2 && ts[0] == "nodev"@ {
        Some((true, ts[1]))
    } else {
        None
    }
}

/// The table read from a sequence of registry lines: every well-formed
/// line's contribution, in order.
pub open spec fn table_of_lines(ls: Seq<Seq<char>>) -> Seq<(bool, Seq<char>)> {
    ls.filter_map(|line: Seq<char>| classify_line(line))
}

/// The table read from the registry text: every well-formed line's
/// contribution, in registry order.
pub open spec fn registry_table(s: Seq<char>) -> Seq<(bool, Seq<char>)> {
    table_of_lines(split_lines(s))
}

/// The names of the drivers a table lists as device-backed, in table order.
pub open spec fn dev_names(entries: Seq<(bool, Seq<char>)>) -> Seq<Seq<char>> {
    entries.filter_map(
        |e: (bool, Seq<char>)|
            if e.0 {
                None
            } else {
                Some(e.1)
            },
    )
}

/// The names of the drivers a table lists as not device-backed, in table
/// order.
pub open spec fn nodev_names(entries: Seq<(bool, Seq<char>)>) -> Seq<Seq<char>> {
    entries.filter_map(
        |e: (bool, Seq<char>)|
            if e.0 {
                Some(e.1)
            } else {
                None
            },
    )
}

/// True iff the table lists `name`, under either classification.
pub open spec fn table_contains_name(entries: Seq<(bool, Seq<char>)>, name: Seq<char>) -> bool {
    exists|i: int| 0 <= i < entries.len() && entries[i].1 == name
}

/// The views of a vector of strings, in order.
pub open spec fn views_of(v: Seq<String>) -> Seq<Seq<char>> {
    v.map_values(|s: String| s@)
}

/// Splitting always yields at least one line.
proof fn lemma_split_lines_len(s: Seq<char>)
    ensures
        split_lines(s).len() >= 1,
    decreases s.len(),
{
    if s.len() == 0 {
    } else {
        lemma_split_lines_len(s.skip(1));
    }
}

/// A newline-free prefix of length `k` is how a text starts its first line:
/// if the prefix is the whole text, it is the only line; if a newline
/// follows it, the rest of the text supplies the remaining lines.
proof fn lemma_split_lines_prefix(s: Seq<char>, k: int)
    requires
        0 <= k <= s.len(),
        forall|m: int| 0 <= m < k ==> s[m] != '\n',
    ensures
        k == s.len() ==> split_lines(s) =~= seq![s],
        k < s.len() && s[k] == '\n' ==> split_lines(s) =~= seq![s.take(k)] + split_lines(
            s.skip(k + 1),
        ),
    decreases k,
{
    lemma_split_lines_len(s);
    if k == 0 {
        if 0 < s.len() && s[0] == '\n' {
            assert(s.take(0) =~= Seq::<char>::empty());
        }
    } else {
        let t = s.skip(1);
        lemma_split_lines_len(t);
        lemma_split_lines_prefix(t, k - 1);
        let rest = split_lines(t);
        if k == s.len() {
            assert(rest =~= seq![t]);
            assert(seq![s[0]] + t =~= s);
            assert(split_lines(s) =~= seq![s]);
        } else if s[k] == '\n' {
            assert(t[k - 1] == '\n');
            assert(rest =~= seq![t.take(k - 1)] + split_lines(t.skip(k)));
            assert(seq![s[0]] + t.take(k - 1) =~= s.take(k));
            assert(t.skip(k) =~= s.skip(k + 1));
            assert(rest.skip(1) =~= split_lines(s.skip(k + 1)));
            assert(split_lines(s) =~= seq![s.take(k)] + split_lines(s.skip(k + 1)));
        }
    }
}

/// A line that starts with a word has at least that one token.
proof fn lemma_tokens_nonempty(s: Seq<char>)
    requires
        s.len() > 0,
        !is_space(s[0]),
    ensures
        tokens(s).len() >= 1,
{
}

/// Leading separators contribute no token.
proof fn lemma_tokens_skip_spaces(s: Seq<char>, k: int)
    requires
        0 <= k <= s.len(),
        forall|m: int| 0 <= m < k ==> is_space(s[m]),
    ensures
        tokens(s) =~= tokens(s.skip(k)),
    decreases k,
{
    if k == 0 {
        assert(s.skip(0) =~= s);
    } else {
        let t = s.skip(1);
        lemma_tokens_skip_spaces(t, k - 1);
        assert(t.skip(k - 1) =~= s.skip(k));
    }
}

/// A maximal word of length `k` at the start of a line is its first token,
/// and the remaining tokens are those of the rest of the line.
proof fn lemma_tokens_first(s: Seq<char>, k: int)
    requires
        1 <= k <= s.len(),
        forall|m: int| 0 <= m < k ==> !is_space(s[m]),
        k < s.len() ==> is_space(s[k]),
    ensures
        tokens(s) =~= seq![s.take(k)] + tokens(s.skip(k)),
    decreases k,
{
    let t = s.skip(1);
    let rest = tokens(t);
    if k == 1 {
        if s.len() == 1 {
            assert(s.take(1) =~= s);
            assert(s.skip(1) =~= Seq::<char>::empty());
            assert(tokens(s) =~= seq![seq![s[0]]] + rest);
            assert(seq![s[0]] =~= s.take(1));
        } else {
            assert(is_space(s[1]));
            assert(tokens(s) =~= seq![seq![s[0]]] + rest);
            assert(seq![s[0]] =~= s.take(1));
        }
    } else {
        assert(!is_space(s[1]));
        lemma_tokens_first(t, k - 1);
        assert(rest =~= seq![t.take(k - 1)] + tokens(t.skip(k - 1)));
        lemma_tokens_nonempty(t);
        assert(tokens(s) =~= seq![seq![s[0]] + rest[0]] + rest.skip(1));
        assert(seq![s[0]] + t.take(k - 1) =~= s.take(k));
        assert(t.skip(k - 1) =~= s.skip(k));
        assert(rest.skip(1) =~= tokens(s.skip(k)));
    }
}

/// A word: one driver name as a line holds it, without separators.
pub open spec fn is_word(w: Seq<char>) -> bool {
    w.len() > 0 && (forall|i: int| 0 <= i < w.len() ==> !is_space(w[i]))
}

/// Law: a name stands among the non-device-backed names exactly when the
/// table has a `nodev` entry for it.
pub proof fn lemma_nodev_names_iff(entries: Seq<(bool, Seq<char>)>, name: Seq<char>)
    ensures
        nodev_names(entries).contains(name) <==> entries.contains((true, name)),
{
    let f = |e: (bool, Seq<char>)|
        if e.0 {
            Some(e.1)
        } else {
            None
        };
    if nodev_names(entries).contains(name) {
        entries.lemma_filter_map_contains(f, name);
        let t = choose|t: (bool, Seq<char>)| #[trigger] entries.contains(t) && f(t) == Some(name);
        assert(t == (true, name));
    }
    if entries.contains((true, name)) {
        let i = choose|i: int| 0 <= i < entries.len() && entries[i] == (true, name);
        lemma_filter_map_contains_at(entries, f, i);
    }
}

/// Law: a name stands among the device-backed names exactly when the table
/// has a bare entry for it.
pub proof fn lemma_dev_names_iff(entries: Seq<(bool, Seq<char>)>, name: Seq<char>)
    ensures
        dev_names(entries).contains(name) <==> entries.contains((false, name)),
{
    let f = |e: (bool, Seq<char>)|
        if e.0 {
            None
        } else {
            Some(e.1)
        };
    if dev_names(entries).contains(name) {
        entries.lemma_filter_map_contains(f, name);
        let t = choose|t: (bool, Seq<char>)| #[trigger] entries.contains(t) && f(t) == Some(name);
        assert(t == (false, name));
    }
    if entries.contains((false, name)) {
        let i = choose|i: int| 0 <= i < entries.len() && entries[i] == (false, name);
        lemma_filter_map_contains_at(entries, f, i);
    }
}

/// Law: a name is supported exactly when it stands in the device-backed
/// list or in the non-device-backed list.
pub proof fn lemma_supported_iff_listed(entries: Seq<(bool, Seq<char>)>, name: Seq<char>)
    ensures
        table_contains_name(entries, name) <==> (dev_names(entries).contains(name)
            || nodev_names(entries).contains(name)),
{
    lemma_nodev_names_iff(entries, name);
    lemma_dev_names_iff(entries, name);
    if table_contains_name(entries, name) {
        let i = choose|i: int| 0 <= i < entries.len() && entries[i].1 == name;
        assert(entries[i] == (entries[i].0, name));
        assert(entries.contains(entries[i]));
    }
    if entries.contains((true, name)) {
        let i = choose|i: int| 0 <= i < entries.len() && entries[i] == (true, name);
        assert(entries[i].1 == name);
    }
    if entries.contains((false, name)) {
        let i = choose|i: int| 0 <= i < entries.len() && entries[i] == (false, name);
        assert(entries[i].1 == name);
    }
}

/// Law: a registry line holding `nodev` and then one name classifies as a
/// driver that needs no device.
pub proof fn lemma_classify_nodev_line(name: Seq<char>)
    requires
        is_word(name),
    ensures
        classify_line("nodev "@ + name) == Some((true, name)),
{
    reveal_strlit("nodev ");
    reveal_strlit("nodev");
    let line = "nodev "@ + name;
    assert(line.len() == 6 + name.len());
    assert(forall|m: int| 0 <= m < 5 ==> !is_space(line[m]));
    assert(is_space(line[5]));
    lemma_tokens_first(line, 5);
    assert(line.take(5) =~= "nodev"@);
    let after = line.skip(5);
    assert(after.len() == 1 + name.len());
    assert(is_space(after[0]));
    lemma_tokens_skip_spaces(after, 1);
    assert(after.skip(1) =~= name);
    lemma_tokens_first(name, name.len() as int);
    assert(name.take(name.len() as int) =~= name);
    assert(tokens(name.skip(name.len() as int)) =~= Seq::<Seq<char>>::empty());
    assert(tokens(name) =~= seq![name]);
    assert(tokens(line) =~= seq!["nodev"@, name]);
}

/// Law: a registry line holding one name alone classifies as a
/// device-backed driver.
pub proof fn lemma_classify_plain_line(name: Seq<char>)
    requires
        is_word(name),
    ensures
        classify_line(name) == Some((false, name)),
{
    lemma_tokens_first(name, name.len() as int);
    assert(name.take(name.len() as int) =~= name);
    assert(tokens(name.skip(name.len() as int)) =~= Seq::<Seq<char>>::empty());
    assert(tokens(name) =~= seq![name]);
}

/// Law: a registry text with a line `nodev <name>` lists `name` among the
/// non-device-backed drivers, and a text with a line holding `<name>`
/// alone lists it among the device-backed drivers; conversely, each list
/// holds only names that some line of the right shape contributed.
pub proof fn lemma_discovered_classification(s: Seq<char>, name: Seq<char>)
    requires
        is_word(name),
    ensures
        split_lines(s).contains("nodev "@ + name) ==> nodev_names(registry_table(s)).contains(
            name,
        ),
        split_lines(s).contains(name) ==> dev_names(registry_table(s)).contains(name),
        dev_names(registry_table(s)).contains(name) ==> exists|i: int|
            0 <= i < split_lines(s).len() && classify_line(split_lines(s)[i]) == Some(
                (false, name),
            ),
        nodev_names(registry_table(s)).contains(name) ==> exists|i: int|
            0 <= i < split_lines(s).len() && classify_line(split_lines(s)[i]) == Some(
                (true, name),
            ),
{
    let lines = split_lines(s);
    let table = registry_table(s);
    let cl = |line: Seq<char>| classify_line(line);
    if lines.contains("nodev "@ + name) {
        lemma_classify_nodev_line(name);
        let i = choose|i: int| 0 <= i < lines.len() && lines[i] == "nodev "@ + name;
        lemma_line_in_table(s, i);
        lemma_nodev_names_iff(table, name);
    }
    if lines.contains(name) {
        lemma_classify_plain_line(name);
        let i = choose|i: int| 0 <= i < lines.len() && lines[i] == name;
        lemma_line_in_table(s, i);
        lemma_dev_names_iff(table, name);
    }
    if dev_names(table).contains(name) {
        lemma_dev_names_iff(table, name);
        lines.lemma_filter_map_contains(cl, (false, name));
        let t = choose|t: Seq<char>| #[trigger] lines.contains(t) && cl(t) == Some((false, name));
        let i = choose|i: int| 0 <= i < lines.len() && lines[i] == t;
        assert(classify_line(lines[i]) == Some((false, name)));
    }
    if nodev_names(table).contains(name) {
        lemma_nodev_names_iff(table, name);
        lines.lemma_filter_map_contains(cl, (true, name));
        let t = choose|t: Seq<char>| #[trigger] lines.contains(t) && cl(t) == Some((true, name));
        let i = choose|i: int| 0 <= i < lines.len() && lines[i] == t;
        assert(classify_line(lines[i]) == Some((true, name)));
    }
}

/// Law: what a registry line contributes stands in the registry table.
pub proof fn lemma_line_in_table(s: Seq<char>, i: int)
    requires
        0 <= i < split_lines(s).len(),
        classify_line(split_lines(s)[i]) is Some,
    ensures
        registry_table(s).contains(classify_line(split_lines(s)[i])->Some_0),
{
    lemma_filter_map_contains_at(split_lines(s), |line: Seq<char>| classify_line(line), i);
}

/// An element that some input maps to appears in the mapped-and-filtered
/// output.
proof fn lemma_filter_map_contains_at<A, B>(s: Seq<A>, f: spec_fn(A) -> Option<B>, i: int)
    requires
        0 <= i < s.len(),
        f(s[i]) is Some,
    ensures
        s.filter_map(f).contains(f(s[i])->Some_0),
    decreases s.len(),
{
    let e = f(s[i])->Some_0;
    if i == s.len() - 1 {
        assert(s.filter_map(f) =~= s.drop_last().filter_map(f) + seq![e]);
        assert(s.filter_map(f).last() == e);
    } else {
        let rest = s.drop_last();
        assert(rest[i] == s[i]);
        lemma_filter_map_contains_at(rest, f, i);
        let j = choose|j: int| 0 <= j < rest.filter_map(f).len() && rest.filter_map(f)[j] == e;
        match f(s.last()) {
            Option::Some(b) => {
                assert(s.filter_map(f) =~= rest.filter_map(f) + seq![b]);
                assert(s.filter_map(f)[j] == e);
            },
            Option::None => {
                assert(s.filter_map(f) =~= rest.filter_map(f));
            },
        }
    }
}

/// Appending one more line extends the table by that line's contribution.
proof fn lemma_table_step(ls: Seq<Seq<char>>, k: int)
    requires
        0 <= k < ls.len(),
    ensures
        table_of_lines(ls.take(k + 1)) =~= table_of_lines(ls.take(k)) + (match classify_line(
            ls[k],
        ) {
            Option::Some(e) => seq![e],
            Option::None => Seq::empty(),
        }),
{
    ls.lemma_filter_map_take_succ(|line: Seq<char>| classify_line(line), k);
}

/// Test a character for being a word separator.
fn is_space_char(c: char) -> (r: bool)
    ensures
        r == is_space(c),
{
    c == ' ' || c == '\t' || c == '\r' || c == '\x0b' || c == '\x0c' || c == '\n'
}

/// Compare the characters `[a, b)` of `s` with the whole of `w`.
pub(crate) fn str_range_eq(s: &str, a: usize, b: usize, w: &str) -> (r: bool)
    requires
        a <= b <= s@.len(),
    ensures
        r == (s@.subrange(a as int, b as int) == w@),
{
    let wn = w.unicode_len();
    if b - a != wn {
        proof {
            assert(s@.subrange(a as int, b as int).len() != w@.len());
        }
        return false;
    }
    let mut m: usize = 0;
    while m < wn
        invariant
            a <= b <= s@.len(),
            b - a == wn == w@.len(),
            0 <= m <= wn,
            forall|p: int| 0 <= p < m ==> s@[a + p] == w@[p],
        decreases wn - m,
    {
        if s.get_char(a + m) != w.get_char(m) {
            proof {
                assert(s@.subrange(a as int, b as int)[m as int] != w@[m as int]);
            }
            return false;
        }
        m += 1;
    }
    proof {
        assert(s@.subrange(a as int, b as int) =~= w@);
    }
    true
}

/// Compare two strings character by character.
pub(crate) fn str_eq(s: &str, w: &str) -> (r: bool)
    ensures
        r == (s@ == w@),
{
    let n = s.unicode_len();
    let r = str_range_eq(s, 0, n, w);
    proof {
        assert(s@.subrange(0, n as int) =~= s@);
    }
    r
}

/// Read one registry line, the characters `[i, j)` of `content`, and return
/// its contribution to the table, if it has one.
fn classify_segment(content: &str, i: usize, j: usize) -> (r: Option<(bool, String)>)
    requires
        i <= j <= content@.len(),
    ensures
        match r {
            Option::Some(e) => classify_line(content@.subrange(i as int, j as int)) == Some(
                (e.0, e.1@),
            ),
            Option::None => classify_line(content@.subrange(i as int, j as int)) is None,
        },
{
    let ghost line = content@.subrange(i as int, j as int);
    // Leading separators before the first word.
    let mut a = i;
    while a < j && is_space_char(content.get_char(a))
        invariant
            i <= a <= j <= content@.len(),
            forall|m: int| i <= m < a ==> is_space(content@[m]),
        decreases j - a,
    {
        a += 1;
    }
    proof {
        lemma_tokens_skip_spaces(line, a - i);
        assert(line.skip(a - i) =~= content@.subrange(a as int, j as int));
    }
    if a == j {
        // Only separators: no token, so no entry.
        proof {
            assert(tokens(line) =~= tokens(Seq::<char>::empty()));
        }
        return None;
    }
    // The first word, `[a, b)`.
    let mut b = a + 1;
    while b < j && !is_space_char(content.get_char(b))
        invariant
            i <= a < b <= j <= content@.len(),
            !is_space(content@[a as int]),
            forall|m: int| a <= m < b ==> !is_space(content@[m]),
        decreases j - b,
    {
        b += 1;
    }
    proof {
        let tail = content@.subrange(a as int, j as int);
        lemma_tokens_first(tail, b - a);
        assert(tail.take(b - a) =~= content@.subrange(a as int, b as int));
        assert(tail.skip(b - a) =~= content@.subrange(b as int, j as int));
        assert(tokens(line) =~= seq![content@.subrange(a as int, b as int)] + tokens(
            content@.subrange(b as int, j as int),
        ));
    }
    // Separators between the first and a possible second word.
    let mut c = b;
    while c < j && is_space_char(content.get_char(c))
        invariant
            b <= c <= j <= content@.len(),
            forall|m: int| b <= m < c ==> is_space(content@[m]),
        decreases j - c,
    {
        c += 1;
    }
    proof {
        let tail = content@.subrange(b as int, j as int);
        lemma_tokens_skip_spaces(tail, c - b);
        assert(tail.skip(c - b) =~= content@.subrange(c as int, j as int));
    }
    if c == j {
        // Exactly one word: a device-backed driver name.
        proof {
            assert(tokens(content@.subrange(b as int, j as int)) =~= tokens(
                Seq::<char>::empty(),
            ));
            assert(tokens(line) =~= seq![content@.subrange(a as int, b as int)]);
        }
        return Some((false, content.substring_char(a, b).to_owned()));
    }
    // The second word, `[c, d)`.
    let mut d = c + 1;
    while d < j && !is_space_char(content.get_char(d))
        invariant
            c < d <= j <= content@.len(),
            !is_space(content@[c as int]),
            forall|m: int| c <= m < d ==> !is_space(content@[m]),
        decreases j - d,
    {
        d += 1;
    }
    proof {
        let tail = content@.subrange(c as int, j as int);
        lemma_tokens_first(tail, d - c);
        assert(tail.take(d - c) =~= content@.subrange(c as int, d as int));
        lemma_tokens_nonempty(tail);
        assert(tokens(line).len() >= 2);
        assert(tokens(line)[0] == content@.subrange(a as int, b as int));
        assert(tokens(line)[1] == content@.subrange(c as int, d as int));
    }
    // Two or more words: an entry only if the first word is `nodev`.
    if str_range_eq(content, a, b, "nodev") {
        Some((true, content.substring_char(c, d).to_owned()))
    } else {
        None
    }
}

/// The filesystem drivers the kernel's registry lists, classified as
/// device-backed or not: a snapshot taken at one point in time, immutable
/// after construction.
#[derive(Clone, Debug)]
pub struct SupportedFilesystems {
    /// Each registry entry, in registry order: whether the driver needs no
    /// block device, and the driver's name.
    list: Vec<(bool, String)>,
}

impl SupportedFilesystems {
    /// The snapshot's table: for each registry entry, in registry order,
    /// whether its driver needs no block device, and the driver's name.
    pub closed spec fn entries(&self) -> Seq<(bool, Seq<char>)> {
        self.list@.map_values(|e: (bool, String)| (e.0, e.1@))
    }

    /// Read the kernel registry text into a snapshot.
    ///
    /// Every line that lists a driver contributes one entry, in registry
    /// order; a line of any other shape is skipped, never fatal.
    pub fn parse(content: &str) -> (r: SupportedFilesystems)
        ensures
            r.entries() == registry_table(content@),
    {
        let ghost lines = split_lines(content@);
        let n = content.unicode_len();
        let mut list: Vec<(bool, String)> = Vec::new();
        let mut i: usize = 0;
        let ghost k: int = 0;
        proof {
            assert(content@.skip(0) =~= content@);
            assert(lines.skip(0) =~= lines);
            assert(lines.take(0) =~= Seq::<Seq<char>>::empty());
            assert(table_of_lines(lines.take(0)) =~= Seq::<(bool, Seq<char>)>::empty());
        }
        loop
            invariant_except_break
                0 <= k < lines.len(),
                split_lines(content@.skip(i as int)) =~= lines.skip(k),
            invariant
                n == content@.len(),
                0 <= i <= n,
                list@.map_values(|e: (bool, String)| (e.0, e.1@)) =~= table_of_lines(
                    lines.take(k),
                ),
            ensures
                list@.map_values(|e: (bool, String)| (e.0, e.1@)) =~= table_of_lines(lines),
            decreases n - i,
        {
            let ghost k_pre = k;
            // The current line ends at the next newline, or at the end of
            // the text.
            let mut j = i;
            while j < n && content.get_char(j) != '\n'
                invariant
                    n == content@.len(),
                    i <= j <= n,
                    forall|m: int| i <= m < j ==> content@[m] != '\n',
                decreases n - j,
            {
                j += 1;
            }
            proof {
                lemma_split_lines_prefix(content@.skip(i as int), j - i);
                lemma_split_lines_len(content@.skip(i as int));
                assert(content@.skip(i as int).take(j - i) =~= content@.subrange(
                    i as int,
                    j as int,
                ));
                if j < n {
                    assert(content@.skip(i as int)[j - i] == content@[j as int]);
                    assert(content@.skip(i as int).skip(j - i + 1) =~= content@.skip(j + 1));
                } else {
                    assert(content@.skip(i as int) =~= content@.subrange(i as int, j as int));
                }
                assert(lines.skip(k)[0] == lines[k]);
                assert(lines[k] == content@.subrange(i as int, j as int));
            }
            match classify_segment(content, i, j) {
                Option::Some(e) => {
                    list.push(e);
                },
                Option::None => (),
            }
            proof {
                lemma_table_step(lines, k);
                assert(list@.map_values(|e: (bool, String)| (e.0, e.1@)) =~= table_of_lines(
                    lines.take(k + 1),
                ));
                k = k + 1;
            }
            if j == n {
                proof {
                    assert(lines.skip(k_pre) =~= seq![lines[k_pre]]);
                    assert(k == lines.len());
                    assert(lines.take(k) =~= lines);
                }
                break ;
            }
            i = j + 1;
            proof {
                assert(lines.skip(k_pre).skip(1) =~= lines.skip(k));
            }
        }
        let r = SupportedFilesystems { list };
        proof {
            assert(r.entries() =~= registry_table(content@));
        }
        r
    }

    /// Check whether a filesystem driver of this name is present on this
    /// system, under either classification.
    pub fn is_supported(&self, fs: &str) -> (r: bool)
        ensures
            r == table_contains_name(self.entries(), fs@),
    {
        let n = self.list.len();
        let mut idx: usize = 0;
        while idx < n
            invariant
                n == self.list@.len(),
                0 <= idx <= n,
                forall|m: int| 0 <= m < idx ==> self.entries()[m].1 != fs@,
            decreases n - idx,
        {
            if str_eq(self.list[idx].1.as_str(), fs) {
                proof {
                    assert(self.entries()[idx as int].1 == fs@);
                }
                return true;
            }
            idx += 1;
        }
        false
    }

    /// The drivers that expect a block device or image as their mount
    /// source, in registry order: the automount trial order.
    pub fn dev_file_systems(&self) -> (r: Vec<String>)
        ensures
            views_of(r@) == dev_names(self.entries()),
    {
        let n = self.list.len();
        let mut out: Vec<String> = Vec::new();
        let mut idx: usize = 0;
        proof {
            assert(self.entries().take(0) =~= Seq::<(bool, Seq<char>)>::empty());
            assert(views_of(out@) =~= dev_names(self.entries().take(0)));
        }
        while idx < n
            invariant
                n == self.list@.len(),
                0 <= idx <= n,
                views_of(out@) =~= dev_names(self.entries().take(idx as int)),
            decreases n - idx,
        {
            if !self.list[idx].0 {
                out.push(self.list[idx].1.clone());
            }
            proof {
                self.entries().lemma_filter_map_take_succ(
                    |e: (bool, Seq<char>)|
                        if e.0 {
                            None
                        } else {
                            Some(e.1)
                        },
                    idx as int,
                );
                assert(views_of(out@) =~= dev_names(self.entries().take(idx + 1)));
            }
            idx += 1;
        }
        proof {
            assert(self.entries().take(n as int) =~= self.entries());
        }
        out
    }

    /// The drivers that need no block device (virtual and pseudo
    /// filesystems), in registry order.
    pub fn nodev_file_systems(&self) -> (r: Vec<String>)
        ensures
            views_of(r@) == nodev_names(self.entries()),
    {
        let n = self.list.len();
        let mut out: Vec<String> = Vec::new();
        let mut idx: usize = 0;
        proof {
            assert(self.entries().take(0) =~= Seq::<(bool, Seq<char>)>::empty());
            assert(views_of(out@) =~= nodev_names(self.entries().take(0)));
        }
        while idx < n
            invariant
                n == self.list@.len(),
                0 <= idx <= n,
                views_of(out@) =~= nodev_names(self.entries().take(idx as int)),
            decreases n - idx,
        {
            if self.list[idx].0 {
                out.push(self.list[idx].1.clone());
            }
            proof {
                self.entries().lemma_filter_map_take_succ(
                    |e: (bool, Seq<char>)|
                        if e.0 {
                            Some(e.1)
                        } else {
                            None
                        },
                    idx as int,
                );
                assert(views_of(out@) =~= nodev_names(self.entries().take(idx + 1)));
            }
            idx += 1;
        }
        proof {
            assert(self.entries().take(n as int) =~= self.entries());
        }
        out
    }
}

} // verus!
