use vstd::prelude::*;
use vstd::string::*;

verus! {

// ---------------------------------------------------------------------------
// Decimal representations
// ---------------------------------------------------------------------------

/// One decimal digit as a character.
pub open spec fn dec_digit(d: nat) -> char
    recommends
        d < 10,
{
    "0123456789"@[d as int]
}

/// Decimal representation of a natural number, most significant digit first.
pub open spec fn dec_rep(n: nat) -> Seq<char>
    decreases n,
{
    if n < 10 {
        seq![dec_digit(n)]
    } else {
        dec_rep(n / 10) + seq![dec_digit(n % 10)]
    }
}

/// Decimal representation of a signed number: a minus sign before the magnitude.
pub open spec fn dec_rep_i64(n: int) -> Seq<char> {
    if n >= 0 {
        dec_rep(n as nat)
    } else {
        seq!['-'] + dec_rep((-n) as nat)
    }
}

fn push_decimal(n: u64, out: &mut String)
    ensures
        final(out)@ == old(out)@ + dec_rep(n as nat),
    decreases n,
{
    proof {
        reveal_strlit("0123456789");
    }
    let digits = "0123456789";
    if n >= 10 {
        push_decimal(n / 10, out);
    }
    let d = (n % 10) as usize;
    let one = digits.substring_char(d, d + 1);
    proof {
        assert(digits@.subrange(d as int, d as int + 1) =~= seq![dec_digit((n % 10) as nat)]);
    }
    out.append(one);
    proof {
        if n < 10 {
            assert(old(out)@ + digits@.subrange(d as int, d as int + 1) =~= old(out)@ + dec_rep(
                n as nat,
            ));
        } else {
            assert(old(out)@ + dec_rep((n / 10) as nat) + seq![dec_digit((n % 10) as nat)]
                =~= old(out)@ + dec_rep(n as nat));
        }
    }
}

/// The decimal form of an unsigned number.
pub fn u64_to_decimal(n: u64) -> (r: String)
    ensures
        r@ == dec_rep(n as nat),
{
    let mut s = String::new();
    push_decimal(n, &mut s);
    proof {
        assert(Seq::<char>::empty() + dec_rep(n as nat) =~= dec_rep(n as nat));
    }
    s
}

/// The decimal form of a signed number.
pub fn i64_to_decimal(n: i64) -> (r: String)
    ensures
        r@ == dec_rep_i64(n as int),
{
    if n >= 0 {
        u64_to_decimal(n as u64)
    } else {
        proof {
            reveal_strlit("-");
        }
        let mut s = String::from_str("-");
        let mag: u64 = ((-(n + 1)) as u64) + 1;
        push_decimal(mag, &mut s);
        proof {
            assert("-"@ + dec_rep(mag as nat) =~= seq!['-'] + dec_rep((-(n as int)) as nat));
        }
        s
    }
}

// ---------------------------------------------------------------------------
// Character-wise string equality
// ---------------------------------------------------------------------------

/// Whether two string slices hold the same characters.
pub fn str_eq(a: &str, b: &str) -> (r: bool)
    ensures
        r == (a@ == b@),
{
    let alen = a.unicode_len();
    let blen = b.unicode_len();
    if alen != blen {
        return false;
    }
    let mut i: usize = 0;
    while i < alen
        invariant
            i <= alen,
            alen == a@.len(),
            alen == b@.len(),
            forall|k: int| 0 <= k < i ==> a@[k] == b@[k],
        decreases alen - i,
    {
        if a.get_char(i) != b.get_char(i) {
            return false;
        }
        i += 1;
    }
    proof {
        assert(a@ =~= b@);
    }
    true
}

// ---------------------------------------------------------------------------
// Whitespace trimming
// ---------------------------------------------------------------------------

/// The characters with the Unicode `White_Space` property, the set that
/// `str::trim` removes.
pub open spec fn is_space(c: char) -> bool {
    c == ' ' || c == '\t' || c == '\n' || c == '\r' || c == '\u{b}' || c == '\u{c}' || c
        == '\u{85}' || c == '\u{a0}' || c == '\u{1680}' || c == '\u{2000}' || c == '\u{2001}' || c
        == '\u{2002}' || c == '\u{2003}' || c == '\u{2004}' || c == '\u{2005}' || c == '\u{2006}'
        || c == '\u{2007}' || c == '\u{2008}' || c == '\u{2009}' || c == '\u{200a}' || c
        == '\u{2028}' || c == '\u{2029}' || c == '\u{202f}' || c == '\u{205f}' || c == '\u{3000}'
}

fn is_space_char(c: char) -> (r: bool)
    ensures
        r == is_space(c),
{
    c == ' ' || c == '\t' || c == '\n' || c == '\r' || c == '\u{b}' || c == '\u{c}' || c
        == '\u{85}' || c == '\u{a0}' || c == '\u{1680}' || c == '\u{2000}' || c == '\u{2001}' || c
        == '\u{2002}' || c == '\u{2003}' || c == '\u{2004}' || c == '\u{2005}' || c == '\u{2006}'
        || c == '\u{2007}' || c == '\u{2008}' || c == '\u{2009}' || c == '\u{200a}' || c
        == '\u{2028}' || c == '\u{2029}' || c == '\u{202f}' || c == '\u{205f}' || c == '\u{3000}'
}

/// How many whitespace characters the sequence starts with.
pub open spec fn ws_prefix_len(s: Seq<char>) -> nat
    decreases s.len(),
{
    if s.len() == 0 || !is_space(s[0]) {
        0
    } else {
        1 + ws_prefix_len(s.drop_first())
    }
}

/// How many whitespace characters the sequence ends with.
pub open spec fn ws_suffix_len(s: Seq<char>) -> nat
    decreases s.len(),
{
    if s.len() == 0 || !is_space(s.last()) {
        0
    } else {
        1 + ws_suffix_len(s.drop_last())
    }
}

/// The sequence with leading and trailing whitespace removed, the meaning of
/// `str::trim`.
pub open spec fn trim_of(s: Seq<char>) -> Seq<char> {
    if ws_prefix_len(s) == s.len() {
        Seq::empty()
    } else {
        s.subrange(ws_prefix_len(s) as int, s.len() - ws_suffix_len(s))
    }
}

pub proof fn lemma_ws_prefix(s: Seq<char>)
    ensures
        ws_prefix_len(s) <= s.len(),
        forall|k: int| 0 <= k < ws_prefix_len(s) ==> is_space(s[k]),
        ws_prefix_len(s) < s.len() ==> !is_space(s[ws_prefix_len(s) as int]),
    decreases s.len(),
{
    if s.len() == 0 || !is_space(s[0]) {
    } else {
        lemma_ws_prefix(s.drop_first());
        assert forall|k: int| 0 <= k < ws_prefix_len(s) implies is_space(s[k]) by {
            if k >= 1 {
                assert(is_space(s.drop_first()[k - 1]));
            }
        }
        if ws_prefix_len(s) < s.len() {
            assert(s.drop_first()[ws_prefix_len(s.drop_first()) as int] == s[ws_prefix_len(
                s,
            ) as int]);
        }
    }
}

pub proof fn lemma_ws_suffix(s: Seq<char>)
    ensures
        ws_suffix_len(s) <= s.len(),
        forall|k: int| s.len() - ws_suffix_len(s) <= k < s.len() ==> is_space(s[k]),
        ws_suffix_len(s) < s.len() ==> !is_space(s[s.len() - ws_suffix_len(s) - 1]),
    decreases s.len(),
{
    if s.len() == 0 || !is_space(s.last()) {
    } else {
        lemma_ws_suffix(s.drop_last());
        assert forall|k: int| s.len() - ws_suffix_len(s) <= k < s.len() implies is_space(s[k]) by {
            if k < s.len() - 1 {
                assert(is_space(s.drop_last()[k]));
            }
        }
        if ws_suffix_len(s) < s.len() {
            assert(s.drop_last()[s.len() - 1 - ws_suffix_len(s.drop_last()) - 1] == s[s.len()
                - ws_suffix_len(s) - 1]);
        }
    }
}

/// When the sequence starts with a non-space character, the trimmed range is
/// well formed and non-empty.
pub proof fn lemma_trim_bounds(s: Seq<char>)
    ensures
        ws_prefix_len(s) < s.len() ==> ws_prefix_len(s) + ws_suffix_len(s) < s.len(),
{
    lemma_ws_prefix(s);
    lemma_ws_suffix(s);
    if ws_prefix_len(s) < s.len() {
        if ws_prefix_len(s) + ws_suffix_len(s) >= s.len() {
            assert(is_space(s[ws_prefix_len(s) as int]));
        }
    }
}

/// Remove leading and trailing whitespace, as `str::trim` does.
pub fn trim<'a>(s: &'a str) -> (r: &'a str)
    ensures
        r@ == trim_of(s@),
{
    proof {
        lemma_ws_prefix(s@);
        lemma_ws_suffix(s@);
        lemma_trim_bounds(s@);
    }
    let len = s.unicode_len();
    let mut i: usize = 0;
    while i < len && is_space_char(s.get_char(i))
        invariant
            i <= len,
            len == s@.len(),
            forall|k: int| 0 <= k < i ==> is_space(s@[k]),
        decreases len - i,
    {
        i += 1;
    }
    proof {
        if i < ws_prefix_len(s@) {
            assert(is_space(s@[i as int]));
            assert(false);
        }
        if i > ws_prefix_len(s@) {
            assert(is_space(s@[ws_prefix_len(s@) as int]));
            assert(false);
        }
    }
    let mut j: usize = len;
    while j > i && is_space_char(s.get_char(j - 1))
        invariant
            i <= j <= len,
            len == s@.len(),
            i == ws_prefix_len(s@),
            forall|k: int| j <= k < len ==> is_space(s@[k]),
        decreases j,
    {
        j -= 1;
    }
    if i == len {
        let r = s.substring_char(len, len);
        proof {
            assert(r@ =~= trim_of(s@));
        }
        r
    } else {
        proof {
            if j == i {
                assert(is_space(s@[i as int]));
                assert(false);
            }
            if len - j < ws_suffix_len(s@) {
                assert(is_space(s@[j - 1]));
                assert(false);
            }
            if len - j > ws_suffix_len(s@) {
                assert(is_space(s@[len - ws_suffix_len(s@) - 1]));
                assert(false);
            }
        }
        s.substring_char(i, j)
    }
}

// ---------------------------------------------------------------------------
// Leading occurrences of a fixed prefix
// ---------------------------------------------------------------------------

/// The sequence with every leading occurrence of `https://` removed, the
/// meaning of `str::trim_start_matches("https://")`.
pub open spec fn strip_scheme_of(s: Seq<char>) -> Seq<char>
    decreases s.len(),
{
    if s.len() >= 8 && s.subrange(0, 8) == "https://"@ {
        strip_scheme_of(s.subrange(8, s.len() as int))
    } else {
        s
    }
}

/// Strip every leading `https://` from a registry endpoint.
pub fn strip_scheme<'a>(server: &'a str) -> (r: &'a str)
    ensures
        r@ == strip_scheme_of(server@),
{
    let mut cur = server;
    loop
        invariant
            strip_scheme_of(cur@) == strip_scheme_of(server@),
        ensures
            cur@ == strip_scheme_of(server@),
        decreases cur@.len(),
    {
        let len = cur.unicode_len();
        if len >= 8 && str_eq(cur.substring_char(0, 8), "https://") {
            cur = cur.substring_char(8, len);
        } else {
            proof {
                assert(strip_scheme_of(cur@) == cur@);
            }
            break ;
        }
    }
    cur
}

// ---------------------------------------------------------------------------
// First occurrence of a character
// ---------------------------------------------------------------------------

/// Length of the part of the sequence before the first occurrence of `c`;
/// the whole length when `c` does not occur.
pub open spec fn char_prefix_len(s: Seq<char>, c: char) -> nat
    decreases s.len(),
{
    if s.len() == 0 || s[0] == c {
        0
    } else {
        1 + char_prefix_len(s.drop_first(), c)
    }
}

pub proof fn lemma_char_prefix(s: Seq<char>, c: char)
    ensures
        char_prefix_len(s, c) <= s.len(),
        forall|k: int| 0 <= k < char_prefix_len(s, c) ==> s[k] != c,
        char_prefix_len(s, c) < s.len() ==> s[char_prefix_len(s, c) as int] == c,
    decreases s.len(),
{
    if s.len() == 0 || s[0] == c {
    } else {
        lemma_char_prefix(s.drop_first(), c);
        assert forall|k: int| 0 <= k < char_prefix_len(s, c) implies s[k] != c by {
            if k >= 1 {
                assert(s.drop_first()[k - 1] != c);
            }
        }
        if char_prefix_len(s, c) < s.len() {
            assert(s.drop_first()[char_prefix_len(s.drop_first(), c) as int] == s[char_prefix_len(
                s,
                c,
            ) as int]);
        }
    }
}

/// Index of the first occurrence of `c`, or the length when absent.
pub fn find_char(s: &str, c: char) -> (r: usize)
    ensures
        r == char_prefix_len(s@, c),
{
    proof {
        lemma_char_prefix(s@, c);
    }
    let len = s.unicode_len();
    let mut i: usize = 0;
    while i < len && s.get_char(i) != c
        invariant
            i <= len,
            len == s@.len(),
            forall|k: int| 0 <= k < i ==> s@[k] != c,
        decreases len - i,
    {
        i += 1;
    }
    proof {
        if i < char_prefix_len(s@, c) {
            assert(s@[i as int] != c);
            assert(false);
        }
        if i > char_prefix_len(s@, c) {
            assert(s@[char_prefix_len(s@, c) as int] == c);
            assert(false);
        }
    }
    i
}

/// The views of an optional string.
pub open spec fn opt_view(o: &Option<String>) -> Option<Seq<char>> {
    match o {
        Some(s) => Some(s@),
        None => None,
    }
}

// ---------------------------------------------------------------------------
// Directory part of a path
// ---------------------------------------------------------------------------

/// Whether a path is relative: it does not start with a separator.
pub open spec fn is_relative_path(p: Seq<char>) -> bool {
    !(p.len() > 0 && p[0] == '/')
}

/// A path joined under a base directory.
pub open spec fn joined_path(dir: Seq<char>, p: Seq<char>) -> Seq<char> {
    dir + seq!['/'] + p
}

/// Index just after the last separator, or 0 when there is none.
pub open spec fn after_last_slash(p: Seq<char>) -> nat
    decreases p.len(),
{
    if p.len() == 0 {
        0
    } else if p.last() == '/' {
        p.len()
    } else {
        after_last_slash(p.drop_last())
    }
}

/// The directory holding a path, the meaning of `Path::parent` followed by
/// the fallback to the current directory: the part before the last
/// separator, `/` for paths directly under the root, and `.` when the path
/// has no separator at all.
pub open spec fn parent_dir_of(p: Seq<char>) -> Seq<char> {
    if after_last_slash(p) == 0 {
        "."@
    } else if after_last_slash(p) == 1 {
        "/"@
    } else {
        p.subrange(0, after_last_slash(p) - 1)
    }
}

pub proof fn lemma_after_last_slash(p: Seq<char>)
    ensures
        after_last_slash(p) <= p.len(),
        forall|k: int| after_last_slash(p) <= k < p.len() ==> p[k] != '/',
        after_last_slash(p) > 0 ==> p[after_last_slash(p) - 1] == '/',
    decreases p.len(),
{
    if p.len() == 0 || p.last() == '/' {
    } else {
        lemma_after_last_slash(p.drop_last());
        assert forall|k: int| after_last_slash(p) <= k < p.len() implies p[k] != '/' by {
            if k < p.len() - 1 {
                assert(p.drop_last()[k] != '/');
            }
        }
        if after_last_slash(p) > 0 {
            assert(p.drop_last()[after_last_slash(p.drop_last()) - 1] == p[after_last_slash(p)
                - 1]);
        }
    }
}

/// The directory part of a path, with `.` for a bare file name.
pub fn parent_dir(p: &str) -> (r: String)
    ensures
        r@ == parent_dir_of(p@),
{
    proof {
        lemma_after_last_slash(p@);
    }
    let len = p.unicode_len();
    let mut j: usize = len;
    while j > 0 && p.get_char(j - 1) != '/'
        invariant
            j <= len,
            len == p@.len(),
            forall|k: int| j <= k < len ==> p@[k] != '/',
        decreases j,
    {
        j -= 1;
    }
    proof {
        if j < after_last_slash(p@) {
            assert(p@[after_last_slash(p@) - 1] == '/');
            assert(false);
        }
        if j > after_last_slash(p@) {
            assert(p@[j - 1] != '/');
            assert(false);
        }
    }
    if j == 0 {
        String::from_str(".")
    } else if j == 1 {
        String::from_str("/")
    } else {
        String::from_str(p.substring_char(0, j - 1))
    }
}

/// Resolve a possibly relative path against an optional base directory, as
/// the project file's Dockerfile path is resolved against the project file's
/// directory.
pub open spec fn resolved_path(p: Seq<char>, base: Option<Seq<char>>) -> Seq<char> {
    if is_relative_path(p) && base is Some {
        joined_path(base->0, p)
    } else {
        p
    }
}

/// Join a relative path under its base directory; leave other paths alone.
pub fn resolve_path(p: &str, base: &Option<String>) -> (r: String)
    ensures
        r@ == resolved_path(
            p@,
            match base {
                Some(b) => Some(b@),
                None => None,
            },
        ),
{
    let relative = p.unicode_len() == 0 || p.get_char(0) != '/';
    match base {
        Some(b) if relative => {
            let mut s = b.clone();
            s.append("/");
            s.append(p);
            proof {
                reveal_strlit("/");
                assert(b@ + "/"@ + p@ =~= joined_path(b@, p@));
            }
            s
        },
        _ => String::from_str(p),
    }
}

} // verus!
