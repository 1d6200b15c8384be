//! Text helpers the coordination core relies on: string comparison, blank
//! detection, decimal rendering, and the naming scheme for text-list entries.
use vstd::prelude::*;

verus! {

/// What `str::trim` returns for a given character sequence.
pub uninterp spec fn trimmed(s: Seq<char>) -> Seq<char>;

/// Relies on `str::trim`: the result is the input with leading and trailing
/// whitespace removed, a function of the input characters alone, and never
/// longer than the input.
#[verifier::external_body]
pub(crate) fn trim_str(s: &str) -> (r: &str)
    ensures
        r@ == trimmed(s@),
        r@.len() <= s@.len(),
{
    s.trim()
}

/// A line is blank when nothing but whitespace stands on it.
pub open spec fn blank_spec(line: Seq<char>) -> bool {
    trimmed(line).len() == 0
}

/// Whether a text-list line is blank.  The prefetch walk skips such lines
/// without counting them.
pub fn is_blank(line: &str) -> (r: bool)
    ensures
        r == blank_spec(line@),
{
    trim_str(line).is_empty()
}

/// Character-for-character string equality.
pub fn str_eq(a: &str, b: &str) -> (r: bool)
    ensures
        r == (a@ == b@),
{
    let alen = a.unicode_len();
    let blen = b.unicode_len();
    if alen != blen {
        return false;
    }
    let mut i: usize = 0;
    while i < alen
        invariant
            i <= alen,
            alen == a@.len(),
            alen == b@.len(),
            forall|j: int| 0 <= j < i ==> a@[j] == b@[j],
        decreases alen - i,
    {
        if a.get_char(i) != b.get_char(i) {
            return false;
        }
        i = i + 1;
    }
    proof {
        assert(a@ =~= b@);
    }
    true
}

/// A line answers for a requested text when its trimmed content equals the
/// text exactly.
pub open spec fn line_matches(line: Seq<char>, target: Seq<char>) -> bool {
    trimmed(line) == target
}

/// Linear scan for the first line whose trimmed content equals `target`.
/// Returns the length of the list when no line matches, which a prefetch
/// trigger treats as starting past the end of the list.
pub fn find_position_in_text_list(lines: &Vec<String>, target: &str) -> (r: usize)
    ensures
        r <= lines@.len(),
        r < lines@.len() ==> line_matches(lines@[r as int]@, target@),
        forall|j: int| 0 <= j < r ==> !line_matches(lines@[j]@, target@),
{
    let mut i: usize = 0;
    let n = lines.len();
    while i < n
        invariant
            i <= n,
            n == lines@.len(),
            forall|j: int| 0 <= j < i ==> !line_matches(lines@[j]@, target@),
        decreases n - i,
    {
        let t = trim_str(lines[i].as_str());
        if str_eq(t, target) {
            return i;
        }
        i = i + 1;
    }
    n
}

/// The character standing for a decimal digit.
pub open spec fn digit_char(d: nat) -> char {
    if d == 0 {
        '0'
    } else if d == 1 {
        '1'
    } else if d == 2 {
        '2'
    } else if d == 3 {
        '3'
    } else if d == 4 {
        '4'
    } else if d == 5 {
        '5'
    } else if d == 6 {
        '6'
    } else if d == 7 {
        '7'
    } else if d == 8 {
        '8'
    } else {
        '9'
    }
}

/// The usual decimal rendering of a natural number, most significant digit
/// first, without leading zeros (a single zero for zero itself).
pub open spec fn dec_str(n: nat) -> Seq<char>
    decreases n,
{
    if n < 10 {
        seq![digit_char(n)]
    } else {
        dec_str(n / 10) + seq![digit_char(n % 10)]
    }
}

fn digit_str(d: usize) -> (r: &'static str)
    requires
        d < 10,
    ensures
        r@ == seq![digit_char(d as nat)],
{
    proof {
        reveal_strlit("0");
        reveal_strlit("1");
        reveal_strlit("2");
        reveal_strlit("3");
        reveal_strlit("4");
        reveal_strlit("5");
        reveal_strlit("6");
        reveal_strlit("7");
        reveal_strlit("8");
        reveal_strlit("9");
    }
    let r = if d == 0 {
        "0"
    } else if d == 1 {
        "1"
    } else if d == 2 {
        "2"
    } else if d == 3 {
        "3"
    } else if d == 4 {
        "4"
    } else if d == 5 {
        "5"
    } else if d == 6 {
        "6"
    } else if d == 7 {
        "7"
    } else if d == 8 {
        "8"
    } else {
        "9"
    };
    proof {
        assert(r@ =~= seq![digit_char(d as nat)]);
    }
    r
}

fn push_decimal(n: usize, out: &mut String)
    ensures
        final(out)@ == old(out)@ + dec_str(n as nat),
    decreases n,
{
    if n < 10 {
        out.append(digit_str(n));
    } else {
        push_decimal(n / 10, out);
        out.append(digit_str(n % 10));
        proof {
            assert(out@ =~= old(out)@ + dec_str(n as nat));
        }
    }
}

/// Renders a line number in decimal.
pub fn usize_to_decimal(n: usize) -> (r: String)
    ensures
        r@ == dec_str(n as nat),
{
    let mut out = String::new();
    push_decimal(n, &mut out);
    proof {
        assert(out@ =~= dec_str(n as nat));
    }
    out
}

/// The last component of a path: everything after the last separator.
pub open spec fn last_component(p: Seq<char>) -> Seq<char>
    decreases p.len(),
{
    if p.len() == 0 {
        p
    } else if p[p.len() - 1] == '/' {
        Seq::empty()
    } else {
        last_component(p.drop_last()).push(p[p.len() - 1])
    }
}

/// The file-name component of a path, as a path library determines it:
/// trailing separators and trailing `.` components are ignored, and a path
/// that is empty, a root, or ends in a `..` component has no file name.
/// So `dir/` has file name `dir`, while `.`, `..` and `/` have none.
pub open spec fn file_name_opt(p: Seq<char>) -> Option<Seq<char>>
    decreases p.len(),
{
    if p.len() == 0 {
        None
    } else if p[p.len() - 1] == '/' {
        file_name_opt(p.drop_last())
    } else if last_component(p) == seq!['.'] {
        file_name_opt(p.drop_last())
    } else if last_component(p) == seq!['.', '.'] {
        None
    } else {
        Some(last_component(p))
    }
}

/// Dots replaced by underscores, so the identifier carries no extension.
pub open spec fn undotted(s: Seq<char>) -> Seq<char> {
    Seq::new(s.len(), |i: int| if s[i] == '.' { '_' } else { s[i] })
}

/// The stable identifier of a text list: its file name with every dot
/// replaced by an underscore, or "unknown" when the path has no file name.
pub open spec fn text_list_id_spec(p: Seq<char>) -> Seq<char> {
    match file_name_opt(p) {
        Some(name) => undotted(name),
        None => "unknown"@,
    }
}

fn last_component_of(path: &str) -> (r: &str)
    ensures
        r@ == last_component(path@),
{
    let n = path.unicode_len();
    let mut start: usize = n;
    while start > 0 && path.get_char(start - 1) != '/'
        invariant
            start <= n,
            n == path@.len(),
            forall|j: int| start <= j < n ==> path@[j] != '/',
        decreases start,
    {
        start = start - 1;
    }
    let r = path.substring_char(start, n);
    proof {
        lemma_last_component_suffix(path@, start as int);
    }
    r
}

proof fn lemma_last_component_suffix(p: Seq<char>, start: int)
    requires
        0 <= start <= p.len(),
        start > 0 ==> p[start - 1] == '/',
        forall|j: int| start <= j < p.len() ==> p[j] != '/',
    ensures
        last_component(p) == p.subrange(start, p.len() as int),
    decreases p.len(),
{
    if p.len() == 0 {
        assert(last_component(p) =~= p.subrange(start, p.len() as int));
    } else if p[p.len() - 1] == '/' {
        assert(start == p.len());
        assert(last_component(p) =~= p.subrange(start, p.len() as int));
    } else if start == p.len() {
        assert(p[p.len() - 1] != '/');
    } else {
        lemma_last_component_suffix(p.drop_last(), start);
        assert(p.drop_last().subrange(start, p.len() - 1) =~= p.subrange(start, p.len() - 1));
        assert(last_component(p) =~= p.subrange(start, p.len() as int));
    }
}

fn file_name_of(path: &str) -> (r: Option<&str>)
    ensures
        r matches Some(name) ==> file_name_opt(path@) == Some(name@),
        r is None ==> file_name_opt(path@) is None,
    decreases path@.len(),
{
    let n = path.unicode_len();
    if n == 0 {
        return None;
    }
    if path.get_char(n - 1) == '/' {
        let parent = path.substring_char(0, n - 1);
        proof {
            assert(parent@ =~= path@.drop_last());
        }
        return file_name_of(parent);
    }
    let name = last_component_of(path);
    let m = name.unicode_len();
    if m == 1 && name.get_char(0) == '.' {
        proof {
            assert(name@ =~= seq!['.']);
        }
        let parent = path.substring_char(0, n - 1);
        proof {
            assert(parent@ =~= path@.drop_last());
        }
        return file_name_of(parent);
    }
    if m == 2 && name.get_char(0) == '.' && name.get_char(1) == '.' {
        proof {
            assert(name@ =~= seq!['.', '.']);
        }
        return None;
    }
    proof {
        assert(name@ != seq!['.']) by {
            if name@ == seq!['.'] {
                assert(name@.len() == 1 && name@[0] == '.');
            }
        }
        assert(name@ != seq!['.', '.']) by {
            if name@ == seq!['.', '.'] {
                assert(name@.len() == 2 && name@[0] == '.' && name@[1] == '.');
            }
        }
    }
    Some(name)
}

/// Calculates the stable identifier for a text-list file from its path.
pub fn get_text_list_id(text_list_path: &str) -> (r: String)
    ensures
        r@ == text_list_id_spec(text_list_path@),
{
    let name = match file_name_of(text_list_path) {
        Some(name) => name,
        None => {
            return String::from_str("unknown");
        },
    };
    let n = name.unicode_len();
    let mut out = String::new();
    let mut i: usize = 0;
    while i < n
        invariant
            i <= n,
            n == name@.len(),
            out@ == undotted(name@).subrange(0, i as int),
        decreases n - i,
    {
        if name.get_char(i) == '.' {
            proof {
                reveal_strlit("_");
            }
            out.append("_");
        } else {
            let piece = name.substring_char(i, i + 1);
            out.append(piece);
        }
        proof {
            assert(out@ =~= undotted(name@).subrange(0, i + 1));
        }
        i = i + 1;
    }
    proof {
        assert(out@ =~= undotted(name@));
    }
    out
}

/// The cache file name of one text-list line: list identifier, underscore,
/// line number, and the fixed audio extension.
pub open spec fn voice_cache_name_spec(p: Seq<char>, line: nat) -> Seq<char> {
    text_list_id_spec(p) + "_"@ + dec_str(line) + ".wav"@
}

/// Generates the cache file name for a specific line of a text list.
pub fn voice_cache_filename(text_list_path: &str, line_number: usize) -> (r: String)
    ensures
        r@ == voice_cache_name_spec(text_list_path@, line_number as nat),
{
    let mut out = get_text_list_id(text_list_path);
    out.append("_");
    push_decimal(line_number, &mut out);
    out.append(".wav");
    proof {
        assert(out@ =~= voice_cache_name_spec(text_list_path@, line_number as nat));
    }
    out
}

} // verus!
