//! Path text manipulation: file names, stems, extensions, and the naming
//! scheme of numbered render artifacts.

use vstd::prelude::*;
use vstd::string::StrSliceExecFns;
use vstd::string::StringExecFns;

verus! {

/// The file-name part of a path: the characters after the last `/`, the
/// whole path when it has none.
pub open spec fn file_name_of(path: Seq<char>) -> Seq<char>
    decreases path.len(),
{
    if path.len() == 0 {
        path
    } else if path.last() == '/' {
        Seq::empty()
    } else {
        file_name_of(path.drop_last()).push(path.last())
    }
}

/// The index of the last `.` of a name, or -1 when it has none.
pub open spec fn dot_index_of(name: Seq<char>) -> int
    decreases name.len(),
{
    if name.len() == 0 {
        -1
    } else if name.last() == '.' {
        name.len() - 1
    } else {
        dot_index_of(name.drop_last())
    }
}

/// The path up to, and not including, the dot that starts its file name's
/// extension; the whole path when the file name has no extension or only
/// a leading dot.
pub open spec fn stem_path_of(path: Seq<char>) -> Seq<char> {
    let name = file_name_of(path);
    let di = dot_index_of(name);
    if di > 0 {
        path.take(path.len() - (name.len() - di))
    } else {
        path
    }
}

/// The file name without its extension.
pub open spec fn stem_of(path: Seq<char>) -> Seq<char> {
    let name = file_name_of(path);
    let di = dot_index_of(name);
    if di > 0 {
        name.take(di)
    } else {
        name
    }
}

/// The path with its extension replaced (or appended) by `.ext`.
pub open spec fn with_extension_of(path: Seq<char>, ext: Seq<char>) -> Seq<char> {
    stem_path_of(path) + seq!['.'] + ext
}

proof fn lemma_file_name_skip(s: Seq<char>, k: int)
    requires
        0 <= k <= s.len(),
        forall|j: int| k <= j < s.len() ==> s[j] != '/',
        k > 0 ==> s[k - 1] == '/',
    ensures
        file_name_of(s) =~= s.skip(k),
    decreases s.len() - k, s.len(),
{
    if k == s.len() {
        if s.len() == 0 {
        } else if k > 0 {
            lemma_file_name_empty(s);
        }
    } else {
        let d = s.drop_last();
        lemma_file_name_skip(d, k);
        assert(file_name_of(s) =~= d.skip(k).push(s.last()));
        assert(d.skip(k).push(s.last()) =~= s.skip(k));
    }
}

proof fn lemma_file_name_empty(s: Seq<char>)
    requires
        s.len() > 0,
        s[s.len() - 1] == '/',
    ensures
        file_name_of(s) =~= Seq::<char>::empty(),
{
}

proof fn lemma_dot_index(s: Seq<char>, d: int)
    requires
        -1 <= d < s.len(),
        d >= 0 ==> s[d] == '.',
        forall|j: int| d < j < s.len() ==> s[j] != '.',
    ensures
        dot_index_of(s) == d,
    decreases s.len(),
{
    if s.len() == 0 {
    } else if s.last() == '.' {
        assert(d == s.len() - 1);
    } else {
        lemma_dot_index(s.drop_last(), d);
    }
}

fn find_name_start(path: &str) -> (k: usize)
    ensures
        k <= path@.len(),
        file_name_of(path@) =~= path@.skip(k as int),
{
    let len = path.unicode_len();
    let mut k = len;
    while k > 0
        invariant
            k <= len,
            len == path@.len(),
            forall|j: int| k <= j < len ==> path@[j] != '/',
        decreases k,
    {
        if path.get_char(k - 1) == '/' {
            proof {
                lemma_file_name_skip(path@, k as int);
            }
            return k;
        }
        k = k - 1;
    }
    proof {
        lemma_file_name_skip(path@, 0);
    }
    0
}

/// Scans a path once and hands back the index where its file name starts
/// and the index of the dot that begins the extension (the length of the
/// path when there is none).
fn split_indices(path: &str) -> (r: (usize, usize))
    ensures
        r.0 <= r.1 <= path@.len(),
        file_name_of(path@) =~= path@.skip(r.0 as int),
        ({
            let di = dot_index_of(file_name_of(path@));
            if di > 0 {
                r.1 == r.0 + di
            } else {
                r.1 == path@.len()
            }
        }),
{
    let len = path.unicode_len();
    let k = find_name_start(path);
    let ghost name = file_name_of(path@);
    let mut m = len;
    while m > k
        invariant
            k <= m <= len,
            len == path@.len(),
            name =~= path@.skip(k as int),
            name == file_name_of(path@),
            forall|j: int| m <= j < len ==> path@[j] != '.',
        decreases m,
    {
        if path.get_char(m - 1) == '.' {
            proof {
                let d = m - 1;
                assert forall|j: int| d - k < j < name.len() implies name[j] != '.' by {
                    assert(name[j] == path@[j + k]);
                }
                assert(name[d - k] == path@[d]);
                lemma_dot_index(name, d - k);
            }
            if m - 1 > k {
                return (k, m - 1);
            } else {
                return (k, len);
            }
        }
        m = m - 1;
    }
    proof {
        assert forall|j: int| -1 < j < name.len() implies name[j] != '.' by {
            assert(name[j] == path@[j + k]);
        }
        lemma_dot_index(name, -1);
    }
    (k, len)
}

/// The file name without its extension, as text.
pub fn stem(path: &str) -> (r: String)
    ensures
        r@ == stem_of(path@),
{
    let (k, cut) = split_indices(path);
    let s = path.substring_char(k, cut);
    proof {
        let name = file_name_of(path@);
        let di = dot_index_of(name);
        if di > 0 {
            assert(path@.subrange(k as int, cut as int) =~= name.take(di));
        } else {
            assert(path@.subrange(k as int, cut as int) =~= name);
        }
    }
    s.to_owned()
}

/// The path up to its file name's extension, as text.
pub fn stem_path(path: &str) -> (r: String)
    ensures
        r@ == stem_path_of(path@),
{
    let (k, cut) = split_indices(path);
    let head = path.substring_char(0, cut);
    proof {
        let name = file_name_of(path@);
        let di = dot_index_of(name);
        if di > 0 {
            assert(path@.subrange(0, cut as int) =~= path@.take(
                path@.len() - (name.len() - di),
            ));
        } else {
            assert(path@.subrange(0, cut as int) =~= path@);
        }
    }
    head.to_owned()
}

/// The path with its extension replaced (or appended) by `.ext`.
pub fn with_extension(path: &str, ext: &str) -> (r: String)
    ensures
        r@ == with_extension_of(path@, ext@),
{
    let (k, cut) = split_indices(path);
    let head = path.substring_char(0, cut);
    let mut out = head.to_owned();
    out.append(".");
    out.append(ext);
    proof {
        reveal_strlit(".");
        let name = file_name_of(path@);
        let di = dot_index_of(name);
        if di > 0 {
            assert(path@.subrange(0, cut as int) =~= path@.take(
                path@.len() - (name.len() - di),
            ));
        } else {
            assert(path@.subrange(0, cut as int) =~= path@);
        }
        assert(out@ =~= stem_path_of(path@) + seq!['.'] + ext@);
    }
    out
}

/// The decimal digit for a value below ten.
pub open spec fn digit_char(d: nat) -> char {
    ((d + 48) as u32) as char
}

/// The decimal digits of `n`, most significant first, no leading zeros.
pub open spec fn decimal_digits(n: nat) -> Seq<char>
    decreases n,
{
    if n < 10 {
        seq![digit_char(n)]
    } else {
        decimal_digits(n / 10).push(digit_char(n % 10))
    }
}

fn digit_str(d: u64) -> (r: &'static str)
    requires
        d < 10,
    ensures
        r@ =~= seq![digit_char(d as nat)],
{
    let r: &'static str = match d {
        0 => "0",
        1 => "1",
        2 => "2",
        3 => "3",
        4 => "4",
        5 => "5",
        6 => "6",
        7 => "7",
        8 => "8",
        _ => "9",
    };
    proof {
        reveal_strlit("0");
        reveal_strlit("1");
        reveal_strlit("2");
        reveal_strlit("3");
        reveal_strlit("4");
        reveal_strlit("5");
        reveal_strlit("6");
        reveal_strlit("7");
        reveal_strlit("8");
        reveal_strlit("9");
    }
    r
}

/// The digits collected least significant first, read back most
/// significant first.
pub open spec fn rev_digit_chars(ds: Seq<u64>) -> Seq<char>
    decreases ds.len(),
{
    if ds.len() == 0 {
        Seq::empty()
    } else {
        rev_digit_chars(ds.drop_first()) + seq![digit_char(ds.first() as nat)]
    }
}

proof fn lemma_rev_digit_push(ds: Seq<u64>, x: u64)
    ensures
        rev_digit_chars(ds.push(x)) =~= seq![digit_char(x as nat)] + rev_digit_chars(ds),
    decreases ds.len(),
{
    assert(ds.push(x).len() == ds.len() + 1);
    assert(rev_digit_chars(ds.push(x)) == rev_digit_chars(ds.push(x).drop_first()) + seq![
        digit_char(ds.push(x).first() as nat),
    ]);
    if ds.len() == 0 {
        assert(ds.push(x).first() == x);
        assert(ds.push(x).drop_first() =~= Seq::<u64>::empty());
    } else {
        assert(ds.push(x).drop_first() =~= ds.drop_first().push(x));
        assert(ds.push(x).first() == ds.first());
        lemma_rev_digit_push(ds.drop_first(), x);
        assert((seq![digit_char(x as nat)] + rev_digit_chars(ds.drop_first())) + seq![
            digit_char(ds.first() as nat),
        ] =~= seq![digit_char(x as nat)] + (rev_digit_chars(ds.drop_first()) + seq![
            digit_char(ds.first() as nat),
        ]));
    }
}

/// Writes `n` in decimal.
pub fn format_u64(n: u64) -> (r: String)
    ensures
        r@ == decimal_digits(n as nat),
{
    let mut digits: Vec<u64> = Vec::new();
    let mut m = n;
    while m >= 10
        invariant
            decimal_digits(n as nat) =~= decimal_digits(m as nat) + rev_digit_chars(digits@),
            forall|j: int| 0 <= j < digits@.len() ==> digits@[j] < 10,
        decreases m,
    {
        let ghost m0 = m as nat;
        let ghost ds0 = digits@;
        let d = m % 10;
        digits.push(d);
        m = m / 10;
        proof {
            assert(digits@ =~= ds0.push(d));
            lemma_rev_digit_push(ds0, d);
            assert(decimal_digits(m0) == decimal_digits(m0 / 10).push(digit_char(m0 % 10)));
            assert(m as nat == m0 / 10);
            assert(decimal_digits(m0 / 10).push(digit_char(m0 % 10)) + rev_digit_chars(ds0)
                =~= decimal_digits(m0 / 10) + (seq![digit_char(d as nat)] + rev_digit_chars(ds0)));
            assert(decimal_digits(n as nat) =~= decimal_digits(m as nat) + rev_digit_chars(
                digits@,
            ));
        }
    }
    let mut out = digit_str(m).to_owned();
    let ghost most = decimal_digits(m as nat);
    let mut i = digits.len();
    proof {
        assert(digits@.skip(i as int) =~= Seq::<u64>::empty());
        assert(out@ =~= most + rev_digit_chars(digits@.skip(i as int)));
    }
    while i > 0
        invariant
            i <= digits@.len(),
            forall|j: int| 0 <= j < digits@.len() ==> digits@[j] < 10,
            most == decimal_digits(m as nat),
            out@ =~= most + rev_digit_chars(digits@.skip(i as int)),
        decreases i,
    {
        proof {
            assert(digits@.skip(i - 1) =~= seq![digits@[i - 1]] + digits@.skip(i as int));
            assert(digits@.skip(i - 1).first() == digits@[i - 1]);
            assert(digits@.skip(i - 1).drop_first() =~= digits@.skip(i as int));
        }
        i = i - 1;
        out.append(digit_str(digits[i]));
        proof {
            assert(out@ =~= most + rev_digit_chars(digits@.skip(i as int)));
        }
    }
    proof {
        assert(digits@.skip(0) =~= digits@);
        assert(out@ =~= decimal_digits(n as nat));
    }
    out
}

/// The name of the artifact that holds page `n` of a document with the
/// given stem: `stem-n` with the extension.
pub open spec fn page_artifact_name_of(stem: Seq<char>, n: nat, ext: Seq<char>) -> Seq<char> {
    stem + seq!['-'] + decimal_digits(n) + seq!['.'] + ext
}

/// Writes the numbered artifact name `stem-n.ext` of one page.
pub fn page_artifact_name(stem: &str, n: u64, ext: &str) -> (r: String)
    ensures
        r@ == page_artifact_name_of(stem@, n as nat, ext@),
{
    let mut out = stem.to_owned();
    out.append("-");
    let num = format_u64(n);
    out.append(num.as_str());
    out.append(".");
    out.append(ext);
    proof {
        reveal_strlit("-");
        reveal_strlit(".");
        assert(out@ =~= page_artifact_name_of(stem@, n as nat, ext@));
    }
    out
}

} // verus!
