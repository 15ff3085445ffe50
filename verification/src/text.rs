use vstd::prelude::*;
use vstd::string::*;

verus! {

/// Characters that may not appear in a filesystem path segment.
pub open spec fn illegal_in_segment(c: char) -> bool {
    c == '/' || c == '\\' || c == ':' || c == '*' || c == '?' || c == '"' || c == '<'
        || c == '>' || c == '|'
}

fn illegal_in_segment_exec(c: char) -> (b: bool)
    ensures
        b == illegal_in_segment(c),
{
    c == '/' || c == '\\' || c == ':' || c == '*' || c == '?' || c == '"' || c == '<'
        || c == '>' || c == '|'
}

/// The characters of `s` with those illegal in a path segment removed,
/// in order.
pub open spec fn sanitized(s: Seq<char>) -> Seq<char>
    decreases s.len(),
{
    if s.len() == 0 {
        Seq::empty()
    } else if illegal_in_segment(s.last()) {
        sanitized(s.drop_last())
    } else {
        sanitized(s.drop_last()).push(s.last())
    }
}

/// Remove the characters illegal in a filesystem path segment, as done to a
/// gallery title before it names the output subdirectory.
pub fn sanitize_title(s: &str) -> (r: String)
    ensures
        r@ == sanitized(s@),
{
    let n: usize = s.unicode_len();
    let mut r = String::new();
    let mut i: usize = 0;
    proof {
        assert(s@.subrange(0, 0) =~= Seq::<char>::empty());
    }
    while i < n
        invariant
            n == s@.len(),
            i <= n,
            r@ == sanitized(s@.subrange(0, i as int)),
        decreases n - i,
    {
        let c = s.get_char(i);
        proof {
            assert(s@.subrange(0, i as int + 1).drop_last() =~= s@.subrange(0, i as int));
            assert(s@.subrange(0, i as int + 1).last() == s@[i as int]);
        }
        if !illegal_in_segment_exec(c) {
            let piece = s.substring_char(i, i + 1);
            proof {
                assert(piece@ =~= seq![s@[i as int]]);
                assert(sanitized(s@.subrange(0, i as int)).push(s@[i as int]) =~= sanitized(
                    s@.subrange(0, i as int),
                ) + seq![s@[i as int]]);
            }
            r.append(piece);
        }
        i = i + 1;
    }
    proof {
        assert(s@.subrange(0, n as int) =~= s@);
    }
    r
}

/// Index of the last occurrence of `c` in `s`, if any.
pub open spec fn rfind(s: Seq<char>, c: char) -> Option<int>
    decreases s.len(),
{
    if s.len() == 0 {
        None
    } else if s.last() == c {
        Some(s.len() - 1)
    } else {
        rfind(s.drop_last(), c)
    }
}

/// A found index lies inside the sequence and carries the sought character.
pub proof fn lemma_rfind_bounds(s: Seq<char>, c: char)
    ensures
        rfind(s, c) matches Some(i) ==> 0 <= i < s.len() && s[i] == c,
    decreases s.len(),
{
    if s.len() > 0 && s.last() != c {
        lemma_rfind_bounds(s.drop_last(), c);
    }
}

/// Find the last occurrence of `c` in `s`.
pub fn rfind_char(s: &str, c: char) -> (r: Option<usize>)
    ensures
        match r {
            Some(i) => rfind(s@, c) == Some(i as int),
            None => rfind(s@, c) is None,
        },
{
    let n: usize = s.unicode_len();
    let mut j: usize = n;
    proof {
        assert(s@.subrange(0, n as int) =~= s@);
    }
    while j > 0
        invariant
            n == s@.len(),
            j <= n,
            rfind(s@, c) == rfind(s@.subrange(0, j as int), c),
        decreases j,
    {
        let ch = s.get_char(j - 1);
        if ch == c {
            proof {
                assert(s@.subrange(0, j as int).last() == s@[j as int - 1]);
            }
            return Some(j - 1);
        }
        proof {
            assert(s@.subrange(0, j as int).drop_last() =~= s@.subrange(0, j as int - 1));
        }
        j = j - 1;
    }
    proof {
        assert(s@.subrange(0, 0) =~= Seq::<char>::empty());
    }
    None
}

/// The trailing path segment of `u`: everything after the last `/`, or all
/// of `u` if it has none.
pub open spec fn last_segment(u: Seq<char>) -> Seq<char> {
    match rfind(u, '/') {
        Some(i) => u.subrange(i + 1, u.len() as int),
        None => u,
    }
}

/// The extension a downloaded asset is stored under: what follows the last
/// `.` of the final URL's trailing path segment, or `jpg` if that segment
/// has no `.`.
pub open spec fn extension_of_spec(u: Seq<char>) -> Seq<char> {
    let seg = last_segment(u);
    match rfind(seg, '.') {
        Some(j) => seg.subrange(j + 1, seg.len() as int),
        None => "jpg"@,
    }
}

/// Derive the output extension from a final asset URL.
pub fn extension_of(url: &str) -> (r: String)
    ensures
        r@ == extension_of_spec(url@),
{
    let n: usize = url.unicode_len();
    proof {
        lemma_rfind_bounds(url@, '/');
    }
    let seg: &str = match rfind_char(url, '/') {
        Some(i) => url.substring_char(i + 1, n),
        None => url,
    };
    proof {
        assert(seg@ == last_segment(url@));
        lemma_rfind_bounds(seg@, '.');
    }
    let m: usize = seg.unicode_len();
    match rfind_char(seg, '.') {
        Some(j) => String::from_str(seg.substring_char(j + 1, m)),
        None => String::from_str("jpg"),
    }
}

/// Decimal digit character for `d` (0 through 9).
pub open spec fn digit_char(d: nat) -> char {
    if d == 0 {
        '0'
    } else if d == 1 {
        '1'
    } else if d == 2 {
        '2'
    } else if d == 3 {
        '3'
    } else if d == 4 {
        '4'
    } else if d == 5 {
        '5'
    } else if d == 6 {
        '6'
    } else if d == 7 {
        '7'
    } else if d == 8 {
        '8'
    } else {
        '9'
    }
}

/// Decimal rendering of `n`, most significant digit first, no leading zeros.
pub open spec fn decimal_of(n: nat) -> Seq<char>
    decreases n,
{
    if n < 10 {
        seq![digit_char(n)]
    } else {
        decimal_of(n / 10).push(digit_char(n % 10))
    }
}

/// Render `n` in decimal.
pub fn u64_decimal(n: u64) -> (r: String)
    ensures
        r@ == decimal_of(n as nat),
    decreases n,
{
    let digits = "0123456789";
    proof {
        reveal_strlit("0123456789");
    }
    if n < 10 {
        let d = digits.substring_char(n as usize, n as usize + 1);
        proof {
            assert(d@ =~= seq![digit_char(n as nat)]);
        }
        String::from_str(d)
    } else {
        let mut r = u64_decimal(n / 10);
        let rem: usize = (n % 10) as usize;
        let d = digits.substring_char(rem, rem + 1);
        proof {
            assert(d@ =~= seq![digit_char(n as nat % 10)]);
            assert(decimal_of((n / 10) as nat).push(digit_char(n as nat % 10)) =~= decimal_of(
                (n / 10) as nat,
            ) + seq![digit_char(n as nat % 10)]);
        }
        r.append(d);
        r
    }
}

/// Output directory for a gallery: `{root}/{sanitized title}`.
pub open spec fn gallery_dir_spec(root: Seq<char>, title: Seq<char>) -> Seq<char> {
    root + "/"@ + sanitized(title)
}

/// Compute the output directory a gallery's files are written under.
pub fn gallery_dir(root: &str, title: &str) -> (r: String)
    ensures
        r@ == gallery_dir_spec(root@, title@),
{
    let mut r = String::from_str(root);
    r.append("/");
    let t = sanitize_title(title);
    r.append(t.as_str());
    r
}

/// Output path for one item: `{dir}/{index+1}.{extension}`, the index
/// 1-based in the file name and the extension taken from the final URL.
pub open spec fn item_path_spec(dir: Seq<char>, index: int, url: Seq<char>) -> Seq<char> {
    dir + "/"@ + decimal_of((index + 1) as nat) + "."@ + extension_of_spec(url)
}

/// Compute the output path for the item at `index` (0-based) whose final
/// asset URL is `url`.
pub fn item_path(dir: &str, index: usize, url: &str) -> (r: String)
    requires
        index < usize::MAX,
    ensures
        r@ == item_path_spec(dir@, index as int, url@),
{
    let mut r = String::from_str(dir);
    r.append("/");
    let num = u64_decimal((index + 1) as u64);
    r.append(num.as_str());
    r.append(".");
    let ext = extension_of(url);
    r.append(ext.as_str());
    r
}

} // verus!
