//! File-name rules of test discovery and of staging support files.
use vstd::prelude::*;
use vstd::seq_lib::to_multiset_insert;
use vstd::string::StrSliceExecFns;
use vstd::string::StringExecFns;
use crate::text::same_text;

verus! {

/// Index of the last `.` in `s`.
pub open spec fn last_dot(s: Seq<char>) -> Option<int>
    decreases s.len(),
{
    if s.len() == 0 {
        None
    } else if s.last() == '.' {
        Some(s.len() - 1)
    } else {
        last_dot(s.drop_last())
    }
}

proof fn lemma_last_dot_in_range(s: Seq<char>)
    ensures
        last_dot(s) matches Some(k) ==> 0 <= k < s.len(),
    decreases s.len(),
{
    if s.len() > 0 {
        lemma_last_dot_in_range(s.drop_last());
    }
}

/// The extension of a file name, as `Path::extension` finds it: the text after
/// the last `.`, unless there is none, the name is `..`, or the dot leads.
pub open spec fn extension(s: Seq<char>) -> Option<Seq<char>> {
    if s == ".."@ {
        None
    } else {
        match last_dot(s) {
            None => None,
            Some(k) => if k == 0 {
                None
            } else {
                Some(s.subrange(k + 1, s.len() as int))
            },
        }
    }
}

pub open spec fn has_extension(s: Seq<char>, e: Seq<char>) -> bool {
    extension(s) == Some(e)
}

/// A file in the public test directory that holds a test's input.
pub open spec fn is_test_input(s: Seq<char>) -> bool {
    has_extension(s, "in"@)
}

/// The name of a test: its input file name with every trailing `.in` removed.
pub open spec fn test_name(s: Seq<char>) -> Seq<char>
    decreases s.len(),
{
    if s.len() >= 3 && s.subrange(s.len() - 3, s.len() as int) == ".in"@ {
        test_name(s.subrange(0, s.len() - 3))
    } else {
        s
    }
}

/// The file name with its extension replaced by `out`, or `.out` appended.
pub open spec fn expected_output_name(s: Seq<char>) -> Seq<char> {
    match extension(s) {
        Some(e) => s.subrange(0, s.len() - e.len()) + "out"@,
        None => s + ".out"@,
    }
}

/// Data files of the public directory copied next to the submission.
pub open spec fn is_public_data(s: Seq<char>) -> bool {
    has_extension(s, "csv"@) || has_extension(s, "json"@) || has_extension(s, "txt"@)
}

/// Support files of the uploads directory copied next to the submission.
pub open spec fn is_upload_support(s: Seq<char>) -> bool {
    is_public_data(s) || has_extension(s, "xlsx"@) || has_extension(s, "xls"@) || has_extension(
        s,
        "py"@,
    ) || has_extension(s, "js"@) || has_extension(s, "java"@) || has_extension(s, "cpp"@)
        || has_extension(s, "sql"@)
}

pub open spec fn texts(v: Seq<String>) -> Seq<Seq<char>> {
    v.map_values(|s: String| s@)
}

/// The test input names among `names`, in their order.
pub open spec fn test_inputs(names: Seq<Seq<char>>) -> Seq<Seq<char>>
    decreases names.len(),
{
    if names.len() == 0 {
        Seq::empty()
    } else if is_test_input(names.last()) {
        test_inputs(names.drop_last()).push(names.last())
    } else {
        test_inputs(names.drop_last())
    }
}

/// Finds the extension of a file name.
pub fn file_extension(s: &str) -> (r: Option<String>)
    ensures
        r matches Some(e) ==> extension(s@) == Some(e@),
        r is None ==> extension(s@) is None,
{
    if same_text(s, "..") {
        return None;
    }
    let n = s.unicode_len();
    let mut j: usize = n;
    proof {
        assert(s@.take(n as int) =~= s@);
    }
    while j > 0 && s.get_char(j - 1) != '.'
        invariant
            n == s@.len(),
            j <= n,
            last_dot(s@) == last_dot(s@.take(j as int)),
        decreases j,
    {
        assert(s@.take(j as int).drop_last() =~= s@.take(j - 1));
        j = j - 1;
    }
    if j <= 1 {
        None
    } else {
        Some(String::from_str(s.substring_char(j, n)))
    }
}

/// Decides whether a file name has exactly the extension `e`.
pub fn has_file_extension(s: &str, e: &str) -> (r: bool)
    ensures
        r == has_extension(s@, e@),
{
    match file_extension(s) {
        Some(x) => same_text(x.as_str(), e),
        None => false,
    }
}

pub fn is_test_input_file(s: &str) -> (r: bool)
    ensures
        r == is_test_input(s@),
{
    has_file_extension(s, "in")
}

/// Data file of the public directory to stage next to the submission.
pub fn is_public_data_file(s: &str) -> (r: bool)
    ensures
        r == is_public_data(s@),
{
    has_file_extension(s, "csv") || has_file_extension(s, "json") || has_file_extension(s, "txt")
}

/// Support file of the uploads directory to stage next to the submission.
pub fn is_upload_support_file(s: &str) -> (r: bool)
    ensures
        r == is_upload_support(s@),
{
    is_public_data_file(s) || has_file_extension(s, "xlsx") || has_file_extension(s, "xls")
        || has_file_extension(s, "py") || has_file_extension(s, "js") || has_file_extension(
        s,
        "java",
    ) || has_file_extension(s, "cpp") || has_file_extension(s, "sql")
}

/// The test name derived from an input file name.
pub fn test_name_of(s: &str) -> (r: String)
    ensures
        r@ == test_name(s@),
{
    let n = s.unicode_len();
    let mut j: usize = n;
    proof {
        assert(s@.take(n as int) =~= s@);
    }
    while j >= 3 && same_text(s.substring_char(j - 3, j), ".in")
        invariant
            n == s@.len(),
            j <= n,
            test_name(s@) == test_name(s@.take(j as int)),
        decreases j,
    {
        assert(s@.take(j as int).subrange(j - 3, j as int) =~= s@.subrange(j - 3, j as int));
        assert(s@.take(j as int).subrange(0, j - 3) =~= s@.take(j - 3));
        j = j - 3;
    }
    if j >= 3 {
        assert(s@.take(j as int).subrange(j - 3, j as int) =~= s@.subrange(j - 3, j as int));
    }
    String::from_str(s.substring_char(0, j))
}

/// The expected-output file name paired with an input file name.
pub fn expected_output_file(s: &str) -> (r: String)
    ensures
        r@ == expected_output_name(s@),
{
    let n = s.unicode_len();
    match file_extension(s) {
        Some(e) => {
            proof {
                lemma_last_dot_in_range(s@);
            }
            let k = e.as_str().unicode_len();
            let mut r = String::from_str(s.substring_char(0, n - k));
            r.append("out");
            r
        },
        None => {
            let mut r = String::from_str(s);
            r.append(".out");
            r
        },
    }
}

/// Keeps the test input files of a directory listing, in listing order.
pub fn filter_test_inputs(names: &Vec<String>) -> (r: Vec<String>)
    ensures
        texts(r@) == test_inputs(texts(names@)),
{
    let mut r: Vec<String> = Vec::new();
    let mut i: usize = 0;
    while i < names.len()
        invariant
            i <= names@.len(),
            texts(r@) == test_inputs(texts(names@.take(i as int))),
        decreases names@.len() - i,
    {
        proof {
            assert(texts(names@.take(i + 1)).drop_last() =~= texts(names@.take(i as int)));
        }
        if is_test_input_file(names[i].as_str()) {
            let x = String::from_str(names[i].as_str());
            r.push(x);
            assert(texts(r@) =~= test_inputs(texts(names@.take(i as int))).push(x@));
        }
        i = i + 1;
    }
    assert(names@.take(i as int) =~= names@);
    r
}

/// Strict lexicographic order by code point, the order of `str`'s `Ord`.
pub open spec fn lex_lt(a: Seq<char>, b: Seq<char>) -> bool
    decreases a.len(),
{
    if a.len() == 0 {
        b.len() > 0
    } else if b.len() == 0 {
        false
    } else if a[0] != b[0] {
        (a[0] as u32) < (b[0] as u32)
    } else {
        lex_lt(a.drop_first(), b.drop_first())
    }
}

pub open spec fn sorted_texts(s: Seq<Seq<char>>) -> bool {
    forall|i: int| 0 < i < s.len() ==> !lex_lt(#[trigger] s[i], s[i - 1])
}

proof fn lemma_lex_lt_asymmetric(a: Seq<char>, b: Seq<char>)
    ensures
        lex_lt(a, b) ==> !lex_lt(b, a),
    decreases a.len(),
{
    if a.len() > 0 && b.len() > 0 && a[0] == b[0] {
        lemma_lex_lt_asymmetric(a.drop_first(), b.drop_first());
    }
}

/// Decides whether `a` sorts strictly before `b`.
pub fn text_less(a: &str, b: &str) -> (r: bool)
    ensures
        r == lex_lt(a@, b@),
{
    let n = a.unicode_len();
    let m = b.unicode_len();
    let mut k: usize = 0;
    proof {
        assert(a@.skip(0) =~= a@);
        assert(b@.skip(0) =~= b@);
    }
    while k < n && k < m && a.get_char(k) == b.get_char(k)
        invariant
            n == a@.len(),
            m == b@.len(),
            k <= n,
            k <= m,
            lex_lt(a@, b@) == lex_lt(a@.skip(k as int), b@.skip(k as int)),
        decreases n - k,
    {
        assert(a@.skip(k as int).drop_first() =~= a@.skip(k + 1));
        assert(b@.skip(k as int).drop_first() =~= b@.skip(k + 1));
        k = k + 1;
    }
    if k == n {
        k < m
    } else if k == m {
        false
    } else {
        assert(a@.skip(k as int)[0] == a@[k as int]);
        assert(b@.skip(k as int)[0] == b@[k as int]);
        (a.get_char(k) as u32) < (b.get_char(k) as u32)
    }
}

/// The test names of a sequence of input file names.
pub open spec fn test_names(s: Seq<Seq<char>>) -> Seq<Seq<char>> {
    s.map_values(|x: Seq<char>| test_name(x))
}

/// Sorts input file names by the test names derived from them.
pub fn sort_by_test_name(v: &Vec<String>) -> (r: Vec<String>)
    ensures
        sorted_texts(test_names(texts(r@))),
        texts(r@).to_multiset() == texts(v@).to_multiset(),
{
    let mut r: Vec<String> = Vec::new();
    let mut i: usize = 0;
    proof {
        assert(texts(r@) =~= texts(v@.take(0)));
    }
    while i < v.len()
        invariant
            i <= v@.len(),
            sorted_texts(test_names(texts(r@))),
            texts(r@).to_multiset() == texts(v@.take(i as int)).to_multiset(),
        decreases v@.len() - i,
    {
        let x = String::from_str(v[i].as_str());
        let key = test_name_of(x.as_str());
        let mut p: usize = 0;
        while p < r.len() && !text_less(key.as_str(), test_name_of(r[p].as_str()).as_str())
            invariant
                p <= r@.len(),
                key@ == test_name(x@),
                forall|j: int| 0 <= j < p ==> !lex_lt(key@, test_name(#[trigger] r@[j]@)),
            decreases r@.len() - p,
        {
            p = p + 1;
        }
        let ghost before = texts(r@);
        proof {
            if p < r@.len() {
                lemma_lex_lt_asymmetric(key@, test_name(r@[p as int]@));
            }
        }
        r.insert(p, x);
        proof {
            assert(texts(r@) =~= before.insert(p as int, x@));
            before.insert_ensures(p as int, x@);
            to_multiset_insert(before, p as int, x@);
            assert(texts(v@.take(i + 1)) =~= texts(v@.take(i as int)).push(x@));
            texts(v@.take(i as int)).to_multiset_ensures();
            let k = test_names(texts(r@));
            let kb = test_names(before);
            assert forall|q: int| 0 < q < k.len() implies !lex_lt(#[trigger] k[q], k[q - 1]) by {
                if q < p {
                    assert(k[q] == kb[q] && k[q - 1] == kb[q - 1]);
                } else if q == p {
                    assert(k[q - 1] == test_name(r@[q - 1]@));
                } else if q == p + 1 {
                    assert(k[q] == kb[p as int]);
                } else {
                    assert(k[q] == kb[q - 1] && k[q - 1] == kb[q - 2]);
                }
            }
        }
        i = i + 1;
    }
    assert(v@.take(i as int) =~= v@);
    r
}

/// The test input files of a directory listing, ordered by test name.
pub fn select_test_inputs(names: &Vec<String>) -> (r: Vec<String>)
    ensures
        sorted_texts(test_names(texts(r@))),
        texts(r@).to_multiset() == test_inputs(texts(names@)).to_multiset(),
{
    let found = filter_test_inputs(names);
    sort_by_test_name(&found)
}

} // verus!
