//! Small helpers shared by the whole crate: hexadecimal and decimal
//! rendering of bytes and words, string equality, and path trimming.

use vstd::prelude::*;

verus! {

/// The lowercase hexadecimal digit for a nibble.
pub open spec fn hex_char(n: u8) -> char {
    if n == 0 {
        '0'
    } else if n == 1 {
        '1'
    } else if n == 2 {
        '2'
    } else if n == 3 {
        '3'
    } else if n == 4 {
        '4'
    } else if n == 5 {
        '5'
    } else if n == 6 {
        '6'
    } else if n == 7 {
        '7'
    } else if n == 8 {
        '8'
    } else if n == 9 {
        '9'
    } else if n == 10 {
        'a'
    } else if n == 11 {
        'b'
    } else if n == 12 {
        'c'
    } else if n == 13 {
        'd'
    } else if n == 14 {
        'e'
    } else {
        'f'
    }
}

/// A byte as two lowercase hexadecimal digits.
pub open spec fn hex_pair(b: u8) -> Seq<char> {
    seq![hex_char(b >> 4), hex_char(b & 0x0f)]
}

/// A 16-bit word in lowercase hexadecimal, zero-padded to at least two
/// digits and otherwise without leading zeros.
pub open spec fn hex_word(v: u16) -> Seq<char> {
    if v >= 0x1000 {
        seq![
            hex_char((v >> 12) as u8),
            hex_char(((v >> 8) & 0x0f) as u8),
            hex_char(((v >> 4) & 0x0f) as u8),
            hex_char((v & 0x0f) as u8),
        ]
    } else if v >= 0x100 {
        seq![
            hex_char((v >> 8) as u8),
            hex_char(((v >> 4) & 0x0f) as u8),
            hex_char((v & 0x0f) as u8),
        ]
    } else {
        hex_pair(v as u8)
    }
}

/// The bytes of `s` rendered as two-digit hexadecimal, separated by `sep`.
pub open spec fn join_hex(s: Seq<u8>, sep: Seq<char>) -> Seq<char>
    decreases s.len(),
{
    if s.len() == 0 {
        Seq::empty()
    } else if s.len() == 1 {
        hex_pair(s[0])
    } else {
        join_hex(s.drop_last(), sep) + sep + hex_pair(s.last())
    }
}

/// `n` space characters.
pub open spec fn spaces(n: nat) -> Seq<char> {
    Seq::new(n, |i: int| ' ')
}

/// A nonnegative number in decimal.
pub open spec fn dec_seq(v: nat) -> Seq<char>
    decreases v,
{
    if v < 10 {
        seq![hex_char(v as u8)]
    } else {
        dec_seq(v / 10) + seq![hex_char((v % 10) as u8)]
    }
}

/// One hexadecimal digit as a string slice.
pub fn hex_digit_str(n: u8) -> (r: &'static str)
    requires
        n < 16,
    ensures
        r@ == seq![hex_char(n)],
{
    let r = match n {
        0 => {
            proof {
                reveal_strlit("0");
            }
            "0"
        },
        1 => {
            proof {
                reveal_strlit("1");
            }
            "1"
        },
        2 => {
            proof {
                reveal_strlit("2");
            }
            "2"
        },
        3 => {
            proof {
                reveal_strlit("3");
            }
            "3"
        },
        4 => {
            proof {
                reveal_strlit("4");
            }
            "4"
        },
        5 => {
            proof {
                reveal_strlit("5");
            }
            "5"
        },
        6 => {
            proof {
                reveal_strlit("6");
            }
            "6"
        },
        7 => {
            proof {
                reveal_strlit("7");
            }
            "7"
        },
        8 => {
            proof {
                reveal_strlit("8");
            }
            "8"
        },
        9 => {
            proof {
                reveal_strlit("9");
            }
            "9"
        },
        10 => {
            proof {
                reveal_strlit("a");
            }
            "a"
        },
        11 => {
            proof {
                reveal_strlit("b");
            }
            "b"
        },
        12 => {
            proof {
                reveal_strlit("c");
            }
            "c"
        },
        13 => {
            proof {
                reveal_strlit("d");
            }
            "d"
        },
        14 => {
            proof {
                reveal_strlit("e");
            }
            "e"
        },
        _ => {
            proof {
                reveal_strlit("f");
            }
            "f"
        },
    };
    proof {
        assert(r@ =~= seq![hex_char(n)]);
    }
    r
}

/// A byte as a two-digit lowercase hexadecimal string.
pub fn byte_to_hex(b: u8) -> (r: String)
    ensures
        r@ == hex_pair(b),
{
    let hi = b >> 4;
    let lo = b & 0x0f;
    proof {
        assert(b >> 4 < 16 && b & 0x0f < 16) by (bit_vector);
    }
    let mut r = String::from_str(hex_digit_str(hi));
    r.append(hex_digit_str(lo));
    proof {
        assert(r@ =~= hex_pair(b));
    }
    r
}

/// A 16-bit word as lowercase hexadecimal, at least two digits wide.
pub fn word_to_hex(v: u16) -> (r: String)
    ensures
        r@ == hex_word(v),
{
    proof {
        assert(v >> 12 < 16 && (v >> 8) & 0x0f < 16 && (v >> 4) & 0x0f < 16 && v & 0x0f < 16)
            by (bit_vector);
        assert(v < 0x1000 ==> v >> 8 < 16 && (v >> 8) & 0x0f == v >> 8) by (bit_vector);
    }
    if v >= 0x1000 {
        let mut r = String::from_str(hex_digit_str((v >> 12) as u8));
        r.append(hex_digit_str(((v >> 8) & 0x0f) as u8));
        r.append(hex_digit_str(((v >> 4) & 0x0f) as u8));
        r.append(hex_digit_str((v & 0x0f) as u8));
        proof {
            assert(r@ =~= hex_word(v));
        }
        r
    } else if v >= 0x100 {
        let mut r = String::from_str(hex_digit_str((v >> 8) as u8));
        r.append(hex_digit_str(((v >> 4) & 0x0f) as u8));
        r.append(hex_digit_str(((v & 0x0f)) as u8));
        proof {
            assert(r@ =~= hex_word(v));
        }
        r
    } else {
        proof {
            assert(v < 0x100 ==> (v as u8) >> 4 == (v >> 4) & 0x0f && (v as u8) & 0x0f == (
            v & 0x0f) as u8) by (bit_vector);
        }
        let r = byte_to_hex(v as u8);
        proof {
            assert(r@ =~= hex_word(v));
        }
        r
    }
}

/// A nonnegative number as a decimal string.
pub fn usize_to_string(v: usize) -> (r: String)
    ensures
        r@ == dec_seq(v as nat),
    decreases v,
{
    if v < 10 {
        String::from_str(hex_digit_str(v as u8))
    } else {
        proof {
            assert(v / 10 < v && v % 10 < 10) by (nonlinear_arith)
                requires
                    v >= 10,
            ;
        }
        let mut r = usize_to_string(v / 10);
        r.append(hex_digit_str((v % 10) as u8));
        r
    }
}

/// Whether two string slices hold the same characters.
pub fn str_eq(a: &str, b: &str) -> (r: bool)
    ensures
        r == (a@ == b@),
{
    let la = a.unicode_len();
    let lb = b.unicode_len();
    if la != lb {
        return false;
    }
    let mut i: usize = 0;
    while i < la
        invariant
            i <= la,
            la == a@.len(),
            lb == b@.len(),
            la == lb,
            forall|j: int| 0 <= j < i ==> a@[j] == b@[j],
        decreases la - i,
    {
        if a.get_char(i) != b.get_char(i) {
            return false;
        }
        i = i + 1;
    }
    proof {
        assert(a@ =~= b@);
    }
    true
}

/// The bytes of a slice in reversed order.
pub fn reverse_bytes(v: &[u8]) -> (r: Vec<u8>)
    ensures
        r@ == v@.reverse(),
{
    let len = v.len();
    let mut r: Vec<u8> = Vec::new();
    let mut i: usize = 0;
    while i < len
        invariant
            i <= len,
            len == v@.len(),
            r@.len() == i,
            forall|j: int| 0 <= j < i ==> r@[j] == v@[len - 1 - j],
        decreases len - i,
    {
        r.push(v[len - 1 - i]);
        i = i + 1;
    }
    proof {
        assert(r@ =~= v@.reverse());
    }
    r
}

/// A string of `n` spaces.
pub fn repeat_spaces(n: usize) -> (r: String)
    ensures
        r@ == spaces(n as nat),
{
    let mut r = String::new();
    let mut i: usize = 0;
    while i < n
        invariant
            i <= n,
            r@ == spaces(i as nat),
        decreases n - i,
    {
        proof {
            reveal_strlit(" ");
        }
        r.append(" ");
        proof {
            assert(r@ =~= spaces((i + 1) as nat));
        }
        i = i + 1;
    }
    r
}

/// The bytes of a slice as space-less hexadecimal pairs joined by `sep`.
pub fn join_bytes(vec: &[u8], sep: &str) -> (r: String)
    ensures
        r@ == join_hex(vec@, sep@),
{
    let len = vec.len();
    let mut r = String::new();
    let mut i: usize = 0;
    while i < len
        invariant
            i <= len,
            len == vec@.len(),
            r@ == join_hex(vec@.take(i as int), sep@),
        decreases len - i,
    {
        if i > 0 {
            r.append(sep);
        }
        let h = byte_to_hex(vec[i]);
        r.append(h.as_str());
        proof {
            let t = vec@.take(i + 1);
            assert(t.drop_last() =~= vec@.take(i as int));
            assert(t.last() == vec@[i as int]);
            assert(r@ =~= join_hex(t, sep@));
        }
        i = i + 1;
    }
    proof {
        assert(vec@.take(len as int) =~= vec@);
    }
    r
}

/// The bytes of a vector as hexadecimal pairs separated by single spaces.
pub fn vec_bytes_to_string(vec: &Vec<u8>) -> (r: String)
    ensures
        r@ == join_hex(vec@, seq![' ']),
{
    proof {
        reveal_strlit(" ");
        assert(" "@ =~= seq![' ']);
    }
    join_bytes(vec.as_slice(), " ")
}

/// An optional string surrounded by a prefix and a suffix, or empty.
pub open spec fn unwrap_str_spec(v: Option<Seq<char>>, prefix: Seq<char>, suffix: Seq<char>) -> Seq<
    char,
> {
    match v {
        Some(s) => prefix + s + suffix,
        None => Seq::empty(),
    }
}

/// Wrap an optional string in a prefix and a suffix; an absent string
/// becomes the empty string.
pub fn unwrap_str(v: &Option<String>, prefix: &str, suffix: &str) -> (r: String)
    ensures
        r@ == unwrap_str_spec(
            match v {
                Some(s) => Some(s@),
                None => None,
            },
            prefix@,
            suffix@,
        ),
{
    match v {
        Some(string) => {
            let mut r = String::from_str(prefix);
            r.append(string.as_str());
            r.append(suffix);
            r
        },
        None => String::new(),
    }
}

/// A 16-bit value from its little-endian byte pair: `upper` is the byte
/// stored first (the low half), `lower` the byte stored second (the high
/// half).
pub fn u16_from_mem(upper: u8, lower: u8) -> (r: u16)
    ensures
        r == lower * 256 + upper,
{
    let r = (lower as u16) << 8 | upper as u16;
    proof {
        assert((lower as u16) << 8 | (upper as u16) == (lower as u16) * 256 + (upper as u16))
            by (bit_vector);
    }
    r
}

/// The index just after the last `/` of `s`, or 0 if there is none.
pub open spec fn start_after_last_slash(s: Seq<char>) -> int
    decreases s.len(),
{
    if s.len() == 0 {
        0
    } else if s[s.len() - 1] == '/' {
        s.len() as int
    } else {
        start_after_last_slash(s.drop_last())
    }
}

/// The index of the first `.` of `s` at or after `i`, or the length of
/// `s` if there is none.
pub open spec fn end_before_dot(s: Seq<char>, i: int) -> int
    decreases s.len() - i,
{
    if i < 0 || i >= s.len() {
        s.len() as int
    } else if s[i] == '.' {
        i
    } else {
        end_before_dot(s, i + 1)
    }
}

/// The stem of a path: the last `/`-separated component, cut before its
/// first `.`.
pub open spec fn name_of_path(s: Seq<char>) -> Seq<char> {
    s.subrange(start_after_last_slash(s), end_before_dot(s, start_after_last_slash(s)))
}

proof fn lemma_start_unique(s: Seq<char>, i: int)
    requires
        0 <= i <= s.len(),
        forall|j: int| i <= j < s.len() ==> s[j] != '/',
        i > 0 ==> s[i - 1] == '/',
    ensures
        i == start_after_last_slash(s),
    decreases s.len(),
{
    if s.len() == 0 {
    } else if s[s.len() - 1] == '/' {
        assert(i == s.len());
    } else {
        assert(i < s.len());
        let t = s.drop_last();
        assert(forall|j: int| i <= j < t.len() ==> t[j] == s[j]);
        if i > 0 {
            assert(t[i - 1] == s[i - 1]);
        }
        lemma_start_unique(t, i);
    }
}

proof fn lemma_end_unique(s: Seq<char>, i: int, j: int)
    requires
        0 <= i <= j <= s.len(),
        forall|k: int| i <= k < j ==> s[k] != '.',
        j < s.len() ==> s[j] == '.',
    ensures
        j == end_before_dot(s, i),
    decreases j - i,
{
    if i == j {
    } else {
        lemma_end_unique(s, i + 1, j);
    }
}

/// The file-name stem of a path: what stands after the last `/` and
/// before the first `.` of that final component.
pub fn path_to_name(path: &str) -> (r: &str)
    ensures
        r@ == name_of_path(path@),
{
    let len = path.unicode_len();
    let mut start: usize = len;
    while start > 0
        invariant
            start <= len,
            len == path@.len(),
            forall|j: int| start <= j < len ==> path@[j] != '/',
        ensures
            start <= len,
            forall|j: int| start <= j < len ==> path@[j] != '/',
            start > 0 ==> path@[start - 1] == '/',
        decreases start,
    {
        if path.get_char(start - 1) == '/' {
            break ;
        }
        start = start - 1;
    }
    proof {
        lemma_start_unique(path@, start as int);
    }
    let mut end: usize = start;
    while end < len
        invariant
            start <= end <= len,
            len == path@.len(),
            forall|k: int| start <= k < end ==> path@[k] != '.',
        ensures
            start <= end <= len,
            forall|k: int| start <= k < end ==> path@[k] != '.',
            end < len ==> path@[end as int] == '.',
        decreases len - end,
    {
        if path.get_char(end) == '.' {
            break ;
        }
        end = end + 1;
    }
    proof {
        lemma_end_unique(path@, start as int, end as int);
    }
    path.substring_char(start, end)
}

} // verus!
