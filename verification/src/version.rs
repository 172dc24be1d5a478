//! The version that is stamped into the Windows executable.

use vstd::prelude::*;

use crate::text;

verus! {

/// What the line of a manifest starts with that sets the version of the package.
pub const VERSION_KEY: &'static str = "version = ";

/// The version of a package whose manifest sets none.
pub const NO_VERSION: &'static str = "0.0.0.0";

/// The place of the first `c` in `s` at or after `from`, or the end of `s` if there is none.
pub open spec fn find_from(s: Seq<char>, from: int, c: char) -> int
    decreases s.len() - from,
{
    if from >= s.len() {
        s.len() as int
    } else if s[from] == c {
        from
    } else {
        find_from(s, from + 1, c)
    }
}

/// The end of the line that starts at `from`, without its line ending.
pub open spec fn line_end(s: Seq<char>, from: int) -> int {
    let end = find_from(s, from, '\n');
    if from < end < s.len() && s[end - 1] == '\r' {
        end - 1
    } else {
        end
    }
}

/// Whether the key stands in `s` at `from`.
pub open spec fn has_key_at(s: Seq<char>, from: int) -> bool {
    from + VERSION_KEY@.len() <= s.len() && s.subrange(from, from + VERSION_KEY@.len())
        == VERSION_KEY@
}

/// The start of the first line, at or after the one that starts at `from`, that starts with the
/// key.
pub open spec fn version_line(s: Seq<char>, from: int) -> Option<int>
    decreases s.len() - from,
{
    if from < 0 || from >= s.len() {
        None
    } else if has_key_at(s, from) {
        Some(from)
    } else {
        let end = find_from(s, from, '\n');
        if from <= end < s.len() {
            version_line(s, end + 1)
        } else {
            None
        }
    }
}

/// What stands between the first two quotes of `line`, or after the first where there is but
/// one.
pub open spec fn first_quoted(line: Seq<char>) -> Option<Seq<char>> {
    let open = find_from(line, 0, '"');
    if open >= line.len() {
        None
    } else {
        Some(line.subrange(open + 1, find_from(line, open + 1, '"')))
    }
}

/// The version that a manifest sets: what its first line with the key holds in quotes.
pub open spec fn manifest_version(manifest: Seq<char>) -> Seq<char> {
    match version_line(manifest, 0) {
        Some(start) => match first_quoted(manifest.subrange(start, line_end(manifest, start))) {
            Some(version) => version,
            None => NO_VERSION@,
        },
        None => NO_VERSION@,
    }
}

/// Where the part of `version` after so many dots starts, if there are as many.
pub open spec fn part_start(version: Seq<char>, dots: nat) -> Option<int>
    decreases dots,
{
    if dots == 0 {
        Some(0)
    } else {
        match part_start(version, (dots - 1) as nat) {
            Some(start) => {
                let dot = find_from(version, start, '.');
                if dot < version.len() {
                    Some(dot + 1)
                } else {
                    None
                }
            },
            None => None,
        }
    }
}

/// The part of `version` after so many dots, up to the next dot, or a zero where there are fewer
/// dots.
pub open spec fn version_part(version: Seq<char>, dots: nat) -> Seq<char> {
    match part_start(version, dots) {
        Some(start) => version.subrange(start, find_from(version, start, '.')),
        None => seq!['0'],
    }
}

/// A version as Windows writes it: four parts, with commas between them.
pub open spec fn windows_text(version: Seq<char>) -> Seq<char> {
    version_part(version, 0) + seq![','] + version_part(version, 1) + seq![','] + version_part(
        version,
        2,
    ) + seq![','] + version_part(version, 3)
}

proof fn lemma_find(s: Seq<char>, from: int, c: char)
    requires
        0 <= from <= s.len(),
    ensures
        from <= find_from(s, from, c) <= s.len(),
        find_from(s, from, c) < s.len() ==> s[find_from(s, from, c)] == c,
        forall|i: int| from <= i < find_from(s, from, c) ==> s[i] != c,
    decreases s.len() - from,
{
    if from < s.len() && s[from] != c {
        lemma_find(s, from + 1, c);
    }
}

/// Whether a line of `s` starts at `i`.
pub open spec fn starts_line(s: Seq<char>, i: int) -> bool {
    0 <= i < s.len() && (i == 0 || s[i - 1] == '\n')
}

/// Whether the text from `i` on starts with the key.
pub open spec fn key_at(s: Seq<char>, i: int) -> bool {
    0 <= i <= s.len() && "version = "@.is_prefix_of(s.skip(i))
}

proof fn lemma_key_at(s: Seq<char>, i: int)
    requires
        0 <= i <= s.len(),
    ensures
        key_at(s, i) <==> has_key_at(s, i),
{
    let n = VERSION_KEY@.len() as int;
    if i + n <= s.len() {
        assert(s.skip(i).take(n) =~= s.subrange(i, i + n));
    }
}

proof fn lemma_version_line(s: Seq<char>, from: int)
    requires
        from == s.len() || starts_line(s, from),
    ensures
        match version_line(s, from) {
            Some(start) => from <= start && starts_line(s, start) && key_at(s, start) && forall|
                i: int,
            |
                from <= i < start && #[trigger] starts_line(s, i) ==> !key_at(s, i),
            None => forall|i: int| from <= i && #[trigger] starts_line(s, i) ==> !key_at(s, i),
        },
    decreases s.len() - from,
{
    if from < s.len() {
        lemma_key_at(s, from);
        if !has_key_at(s, from) {
            let end = find_from(s, from, '\n');
            lemma_find(s, from, '\n');
            assert forall|i: int| from < i <= end implies !#[trigger] starts_line(s, i) by {
                assert(i < s.len() ==> s[i - 1] != '\n');
            }
            if end < s.len() {
                if end + 1 < s.len() {
                    assert(starts_line(s, end + 1));
                }
                lemma_version_line(s, end + 1);
            }
        }
    }
}

/// The version is what stands in quotes on the first line that starts with the key, up to the end
/// of the line where the quote is not closed; a manifest without such a line, or with no quote on
/// it, has the version of packages that set none.
pub proof fn law_first_line_with_the_key_sets_the_version(
    manifest: Seq<char>,
    start: int,
    end: int,
    open: int,
    close: int,
)
    ensures
        (forall|i: int| #[trigger] starts_line(manifest, i) ==> !key_at(manifest, i))
            ==> manifest_version(manifest) == "0.0.0.0"@,
        ({
            // The line from `start` to `end` is the first one with the key.
            &&& starts_line(manifest, start)
            &&& key_at(manifest, start)
            &&& forall|i: int|
                i < start && #[trigger] starts_line(manifest, i) ==> !key_at(manifest, i)
            &&& is_line(manifest, start, end)
        }) ==> {
            &&& (forall|i: int| start <= i < end ==> manifest[i] != '"') ==> manifest_version(
                manifest,
            ) == "0.0.0.0"@
            &&& start <= open < close <= end && manifest[open] == '"' && (forall|i: int|
                start <= i < close && i != open ==> manifest[i] != '"') && (close == end
                || manifest[close] == '"') ==> manifest_version(manifest) == manifest.subrange(
                open + 1,
                close,
            )
        },
{
    if manifest.len() > 0 {
        assert(starts_line(manifest, 0));
    }
    lemma_version_line(manifest, 0);
    if starts_line(manifest, start) && key_at(manifest, start) && (forall|i: int|
        i < start && #[trigger] starts_line(manifest, i) ==> !key_at(manifest, i)) && is_line(
        manifest,
        start,
        end,
    ) {
        assert(version_line(manifest, 0) == Some(start));
        lemma_line_end(manifest, start, end);
        let line = manifest.subrange(start, end);
        lemma_find(line, 0, '"');
        let found = find_from(line, 0, '"');
        if start <= open < close <= end && manifest[open] == '"' && (forall|i: int|
            start <= i < close && i != open ==> manifest[i] != '"') && (close == end
            || manifest[close] == '"') {
            assert(line[open - start] == '"');
            if found < open - start {
                assert(line[found] == manifest[start + found]);
            }
            assert(found == open - start);
            lemma_find(line, found + 1, '"');
            let closed = find_from(line, found + 1, '"');
            if closed < close - start {
                assert(line[closed] == manifest[start + closed]);
            }
            if closed > close - start {
                assert(line[close - start] == manifest[close]);
            }
            assert(line.subrange(found + 1, closed) =~= manifest.subrange(open + 1, close));
        }
        if forall|i: int| start <= i < end ==> manifest[i] != '"' {
            if found < line.len() {
                assert(line[found] == manifest[start + found]);
            }
        }
    }
}

/// Whether the line that starts at `start` ends before `end`, where its line ending or the end of
/// the text is. A line ends with a line feed, or with a carriage return and a line feed.
pub open spec fn is_line(s: Seq<char>, start: int, end: int) -> bool {
    &&& 0 <= start <= end <= s.len()
    &&& forall|i: int| start <= i < end ==> s[i] != '\n'
    &&& ({
        ||| end == s.len()
        ||| s[end] == '\n' && !(start < end && s[end - 1] == '\r')
        ||| end + 1 < s.len() && s[end] == '\r' && s[end + 1] == '\n'
    })
}

proof fn lemma_line_end(s: Seq<char>, start: int, end: int)
    requires
        is_line(s, start, end),
        start < s.len(),
    ensures
        line_end(s, start) == end,
{
    lemma_find(s, start, '\n');
    let feed = find_from(s, start, '\n');
    assert(feed >= end);
    if end < s.len() {
        if s[end] == '\n' {
            assert(feed == end);
        } else {
            assert(feed == end + 1);
        }
    }
}

/// Where the part after so many dots starts in a version with the given parts.
spec fn joined_start(parts: Seq<Seq<char>>, k: int) -> int {
    if k == 0 {
        0
    } else {
        text::joined(parts.take(k), seq!['.']).len() as int + 1
    }
}

proof fn lemma_joined_part(parts: Seq<Seq<char>>, k: int)
    requires
        0 <= k < parts.len(),
        forall|i: int, j: int|
            0 <= i < parts.len() && 0 <= j < parts[i].len() ==> #[trigger] parts[i][j] != '.',
    ensures
        ({
            let version = text::joined(parts, seq!['.']);
            let start = joined_start(parts, k);
            let end = start + parts[k].len();
            &&& 0 <= start <= end <= version.len()
            &&& version.subrange(start, end) == parts[k]
            &&& find_from(version, start, '.') == end
            &&& k + 1 < parts.len() ==> end < version.len() && joined_start(parts, k + 1) == end + 1
            &&& k + 1 == parts.len() ==> end == version.len()
        }),
{
    let dot = seq!['.'];
    let version = text::joined(parts, dot);
    let start = joined_start(parts, k);
    let part = parts[k];
    let upto = text::joined(parts.take(k + 1), dot);
    // Up to the part and with it.
    assert(parts.take(k + 1) =~= parts.take(k) + seq![part]);
    text::law_parts_are_joined_with_the_separator(parts.take(k), seq![part], part, dot);
    if k == 0 {
        assert(parts.take(1) =~= seq![part]);
    }
    assert(upto.len() == start + part.len());
    assert(upto.subrange(start, start + part.len()) =~= part);
    // The part and what follows.
    if k + 1 < parts.len() {
        let after = parts.skip(k + 1);
        assert(parts =~= parts.take(k + 1) + after);
        text::law_parts_are_joined_with_the_separator(parts.take(k + 1), after, part, dot);
        assert(version == upto + dot + text::joined(after, dot));
        assert(version[start + part.len()] == '.');
    } else {
        assert(parts =~= parts.take(k + 1));
    }
    let end = start + part.len();
    assert(version.subrange(start, end) =~= part);
    lemma_find(version, start, '.');
    let found = find_from(version, start, '.');
    if found < end {
        assert(version.subrange(start, end)[found - start] == parts[k][found - start]);
    }
}

proof fn lemma_part_starts(parts: Seq<Seq<char>>, k: nat)
    requires
        parts.len() > 0,
        forall|i: int, j: int|
            0 <= i < parts.len() && 0 <= j < parts[i].len() ==> #[trigger] parts[i][j] != '.',
    ensures
        part_start(text::joined(parts, seq!['.']), k) == if k < parts.len() {
            Some(joined_start(parts, k as int))
        } else {
            None
        },
    decreases k,
{
    if k > 0 {
        lemma_part_starts(parts, (k - 1) as nat);
        if k - 1 < parts.len() {
            lemma_joined_part(parts, k - 1);
        }
    }
}

/// The part of a version at a place, or a zero where it has fewer parts.
pub open spec fn part_or_zero(parts: Seq<Seq<char>>, k: int) -> Seq<char> {
    if k < parts.len() {
        parts[k]
    } else {
        seq!['0']
    }
}

/// A version whose parts stand between dots is written with its first four parts between commas,
/// and with zeros for those that it lacks.
pub proof fn law_windows_version_has_the_parts(parts: Seq<Seq<char>>)
    requires
        parts.len() > 0,
        forall|i: int, j: int|
            0 <= i < parts.len() && 0 <= j < parts[i].len() ==> #[trigger] parts[i][j] != '.',
    ensures
        windows_text(text::joined(parts, seq!['.'])) == part_or_zero(parts, 0) + seq![',']
            + part_or_zero(parts, 1) + seq![','] + part_or_zero(parts, 2) + seq![',']
            + part_or_zero(parts, 3),
{
    let version = text::joined(parts, seq!['.']);
    assert forall|k: nat| #[trigger] version_part(version, k) == part_or_zero(
        parts,
        k as int,
    ) by {
        lemma_part_starts(parts, k);
        if k < parts.len() {
            lemma_joined_part(parts, k as int);
        }
    }
    assert(version_part(version, 0) == part_or_zero(parts, 0));
    assert(version_part(version, 1) == part_or_zero(parts, 1));
    assert(version_part(version, 2) == part_or_zero(parts, 2));
    assert(version_part(version, 3) == part_or_zero(parts, 3));
}

fn char_vec(s: &str) -> (r: Vec<char>)
    ensures
        r@ == s@,
{
    let mut r: Vec<char> = Vec::new();
    for c in it: s.chars()
        invariant
            it.seq() == s@,
            r@ == s@.take(it.index() as int),
    {
        r.push(c);
        proof {
            assert(r@ =~= s@.take(it.index() + 1));
        }
    }
    proof {
        assert(s@.take(s@.len() as int) =~= s@);
    }
    r
}

fn find(chars: &Vec<char>, from: usize, c: char) -> (r: usize)
    requires
        from <= chars.len(),
    ensures
        r == find_from(chars@, from as int, c),
        from <= r <= chars.len(),
        r < chars.len() ==> chars[r as int] == c,
{
    let n: usize = chars.len();
    let mut i: usize = from;
    while i < n && chars[i] != c
        invariant
            n == chars.len(),
            from <= i <= n,
            find_from(chars@, from as int, c) == find_from(chars@, i as int, c),
        decreases n - i,
    {
        i += 1;
    }
    i
}

/// Reads the version that a manifest sets.
pub fn package_version(manifest: &str) -> (r: String)
    ensures
        r@ == manifest_version(manifest@),
{
    let chars = char_vec(manifest);
    let key = char_vec(VERSION_KEY);
    let n: usize = chars.len();
    let mut start: usize = 0;
    while start < n && !key_stands_at(&chars, start, &key)
        invariant
            n == chars.len(),
            chars@ == manifest@,
            key@ == VERSION_KEY@,
            start <= n,
            version_line(manifest@, 0) == version_line(manifest@, start as int),
        decreases n - start,
    {
        let end: usize = find(&chars, start, '\n');
        start = if end < n {
            end + 1
        } else {
            n
        };
    }
    if start >= n {
        return NO_VERSION.to_string();
    }
    let mut end: usize = find(&chars, start, '\n');
    if start < end && end < n && chars[end - 1] == '\r' {
        end -= 1;
    }
    let ghost line = manifest@.subrange(start as int, end as int);
    let mut open: usize = start;
    while open < end && chars[open] != '"'
        invariant
            end <= n == chars.len(),
            start <= open <= end,
            chars@ == manifest@,
            line == manifest@.subrange(start as int, end as int),
            find_from(line, 0, '"') == find_from(line, open - start, '"'),
        decreases end - open,
    {
        open += 1;
    }
    if open >= end {
        return NO_VERSION.to_string();
    }
    let mut close: usize = open + 1;
    while close < end && chars[close] != '"'
        invariant
            end <= n == chars.len(),
            start <= open < close <= end,
            chars@ == manifest@,
            line == manifest@.subrange(start as int, end as int),
            find_from(line, open + 1 - start, '"') == find_from(line, close - start, '"'),
        decreases end - close,
    {
        close += 1;
    }
    proof {
        assert(line.subrange(open + 1 - start, close - start) =~= manifest@.subrange(
            open + 1,
            close as int,
        ));
    }
    manifest.substring_char(open + 1, close).to_string()
}

fn key_stands_at(chars: &Vec<char>, from: usize, key: &Vec<char>) -> (r: bool)
    requires
        from <= chars.len(),
        key@ == VERSION_KEY@,
    ensures
        r == has_key_at(chars@, from as int),
{
    let n: usize = key.len();
    if n > chars.len() - from {
        return false;
    }
    for i in 0..n
        invariant
            n == key.len(),
            key@ == VERSION_KEY@,
            from + n <= chars.len(),
            forall|j: int| 0 <= j < i ==> chars[from + j] == key[j],
    {
        if chars[from + i] != key[i] {
            proof {
                assert(chars@.subrange(from as int, from + n)[i as int] != VERSION_KEY@[i as int]);
            }
            return false;
        }
    }
    proof {
        assert(chars@.subrange(from as int, from + n) =~= VERSION_KEY@);
    }
    true
}

fn push_part(r: &mut String, version: &str, chars: &Vec<char>, at: Option<usize>, dots: Ghost<nat>)
    -> (next: Option<usize>)
    requires
        chars@ == version@,
        at matches Some(start) ==> start <= chars.len(),
        match at {
            Some(start) => part_start(version@, dots@) == Some(start as int),
            None => part_start(version@, dots@) is None,
        },
    ensures
        final(r)@ == old(r)@ + version_part(version@, dots@),
        next matches Some(start) ==> start <= chars.len(),
        match next {
            Some(start) => part_start(version@, dots@ + 1) == Some(start as int),
            None => part_start(version@, dots@ + 1) is None,
        },
{
    match at {
        Some(start) => {
            let dot: usize = find(chars, start, '.');
            r.append(version.substring_char(start, dot));
            if dot < chars.len() {
                Some(dot + 1)
            } else {
                None
            }
        },
        None => {
            proof {
                reveal_strlit("0");
                assert("0"@ =~= seq!['0']);
            }
            r.append("0");
            None
        },
    }
}

/// Writes a version as Windows does: its first four parts, with zeros for those that are missing
/// and commas between them.
pub fn windows_version(version: &str) -> (r: String)
    ensures
        r@ == windows_text(version@),
{
    let chars = char_vec(version);
    let mut r = String::new();
    proof {
        reveal_strlit(",");
        assert(","@ =~= seq![',']);
    }
    let minor = push_part(&mut r, version, &chars, Some(0), Ghost(0));
    r.append(",");
    let patch = push_part(&mut r, version, &chars, minor, Ghost(1));
    r.append(",");
    let build = push_part(&mut r, version, &chars, patch, Ghost(2));
    r.append(",");
    let _rest = push_part(&mut r, version, &chars, build, Ghost(3));
    proof {
        assert(r@ =~= windows_text(version@));
    }
    r
}

} // verus!
