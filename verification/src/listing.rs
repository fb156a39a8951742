//! Reading a kernel from a disassembly listing.
//!
//! A listing is text. Its first five lines are a header. The sixth names the
//! kernel: the name is what stands between the first and the second space
//! of that line, without the characters `:`, `<` and `>`. Everything after
//! that line holds the program: each run of characters between white space
//! that is a number of exactly eight hexadecimal digits, or a plus sign and
//! seven, is one program word, and every other run is commentary.
//!
//! The text is UTF-8 and is read as bytes. White space is every character
//! that Unicode counts as such: the six of ASCII, and nineteen more that take
//! two or three bytes. Lines end at a line feed only; a carriage return
//! right before it does not belong to the line.
use vstd::prelude::*;

verus! {

/// Whether three bytes are the UTF-8 encoding of a white-space character:
/// U+1680, U+2000 to U+200A, U+2028, U+2029, U+202F, U+205F or U+3000.
pub open spec fn is_wide_space(a: u8, b: u8, c: u8) -> bool {
    ||| a == 0xe1 && b == 0x9a && c == 0x80
    ||| a == 0xe2 && b == 0x80 && (0x80 <= c <= 0x8a || c == 0xa8 || c == 0xa9 || c == 0xaf)
    ||| a == 0xe2 && b == 0x81 && c == 0x9f
    ||| a == 0xe3 && b == 0x80 && c == 0x80
}

/// The number of bytes of the white-space character that starts at `i`;
/// zero if none starts there. The characters of one byte are the space and
/// U+0009 to U+000D, those of two bytes U+0085 and U+00A0.
pub open spec fn space_len(s: Seq<u8>, i: int) -> int {
    if i < 0 || i >= s.len() {
        0
    } else if s[i] == 0x20 || (0x09 <= s[i] <= 0x0d) {
        1
    } else if i + 1 < s.len() && s[i] == 0xc2 && (s[i + 1] == 0x85 || s[i + 1] == 0xa0) {
        2
    } else if i + 2 < s.len() && is_wide_space(s[i], s[i + 1], s[i + 2]) {
        3
    } else {
        0
    }
}

/// The value of a hexadecimal digit of either case.
pub open spec fn digit_of(b: u8) -> Option<u32> {
    if 0x30 <= b <= 0x39 {
        Some((b - 0x30) as u32)
    } else if 0x61 <= b <= 0x66 {
        Some((b - 0x61 + 10) as u32)
    } else if 0x41 <= b <= 0x46 {
        Some((b - 0x41 + 10) as u32)
    } else {
        None
    }
}

/// The number that the bytes from `i` up to `j` spell in hexadecimal digits,
/// if they are all digits.
pub open spec fn hex_value(s: Seq<u8>, i: int, j: int) -> Option<nat>
    decreases j - i,
{
    if j <= i {
        Some(0)
    } else {
        match (hex_value(s, i, j - 1), digit_of(s[j - 1])) {
            (Some(v), Some(d)) => Some((v * 16 + d) as nat),
            _ => None,
        }
    }
}

/// The program word that the run of bytes from `i` up to `j` spells: eight
/// hexadecimal digits, or a plus sign and seven.
pub open spec fn token_word(s: Seq<u8>, i: int, j: int) -> Option<nat> {
    if j - i != 8 {
        None
    } else if s[i] == 0x2b {
        hex_value(s, i + 1, j)
    } else {
        hex_value(s, i, j)
    }
}

/// The end of the run of bytes that starts at `i` and holds no white space:
/// the index at which the text ends or the next white-space character
/// starts.
pub open spec fn token_end(s: Seq<u8>, i: int) -> int
    decreases s.len() - i,
{
    if i >= s.len() || space_len(s, i) > 0 {
        i
    } else {
        token_end(s, i + 1)
    }
}

/// The program words that the text from `i` on holds, in order.
pub open spec fn words_from(s: Seq<u8>, i: int) -> Seq<u32>
    decreases s.len() - i,
{
    if i >= s.len() || i < 0 {
        Seq::empty()
    } else if space_len(s, i) > 0 {
        words_from(s, i + space_len(s, i))
    } else {
        let e = token_end(s, i);
        if e <= i || e > s.len() {
            Seq::empty()
        } else {
            match token_word(s, i, e) {
                Some(v) => seq![v as u32] + words_from(s, e),
                None => words_from(s, e),
            }
        }
    }
}

/// The index of the first byte equal to `b` from `i` on and before `stop`;
/// `stop` if there is none.
pub open spec fn find(s: Seq<u8>, i: int, stop: int, b: u8) -> int
    decreases stop - i,
{
    if i >= stop || s[i] == b {
        if i >= stop {
            stop
        } else {
            i
        }
    } else {
        find(s, i + 1, stop, b)
    }
}

/// Where line `k` starts, counted from zero, if the text has that many
/// lines. A line ends with a line feed or with the text.
pub open spec fn line_start(s: Seq<u8>, k: nat) -> Option<int>
    decreases k,
{
    if k == 0 {
        if s.len() > 0 {
            Some(0int)
        } else {
            None
        }
    } else {
        match line_start(s, (k - 1) as nat) {
            None => None,
            Some(a) => {
                let e = find(s, a, s.len() as int, 0x0a);
                if e + 1 < s.len() {
                    Some(e + 1)
                } else {
                    None
                }
            },
        }
    }
}

/// Whether a byte is one of the marks that are taken out of a name.
pub open spec fn is_mark(b: u8) -> bool {
    b == 0x3a || b == 0x3c || b == 0x3e
}

/// The bytes from `i` up to `j` without the marks.
pub open spec fn stripped(s: Seq<u8>, i: int, j: int) -> Seq<u8>
    decreases j - i,
{
    if j <= i {
        Seq::empty()
    } else if is_mark(s[j - 1]) {
        stripped(s, i, j - 1)
    } else {
        stripped(s, i, j - 1).push(s[j - 1])
    }
}

/// The kernel's name on the line from `a` up to `stop`: what stands between
/// the first space and the next, without the marks. `None` for a line
/// without a space.
pub open spec fn kernel_name(s: Seq<u8>, a: int, stop: int) -> Option<Seq<u8>> {
    let p1 = find(s, a, stop, 0x20);
    if p1 >= stop {
        None
    } else {
        Some(stripped(s, p1 + 1, find(s, p1 + 1, stop, 0x20)))
    }
}

/// The end of the line's text: a carriage return before the line feed does
/// not belong to it.
pub open spec fn text_end(s: Seq<u8>, a: int, e: int) -> int {
    if e < s.len() && a < e && s[e - 1] == 0x0d {
        e - 1
    } else {
        e
    }
}

/// The program words and the kernel's name of a listing; `None` where the
/// listing has fewer than six lines or its sixth has no space.
pub open spec fn listing(s: Seq<u8>) -> Option<(Seq<u32>, Seq<u8>)> {
    match line_start(s, 5) {
        None => None,
        Some(a) => {
            let e = find(s, a, s.len() as int, 0x0a);
            match kernel_name(s, a, text_end(s, a, e)) {
                None => None,
                Some(name) => Some((words_from(s, e + 1), name)),
            }
        },
    }
}

/// Sixteen to the power `k`.
pub open spec fn sixteen_to(k: nat) -> nat
    decreases k,
{
    if k == 0 {
        1
    } else {
        16 * sixteen_to((k - 1) as nat)
    }
}

proof fn lemma_sixteen()
    ensures
        sixteen_to(0) == 1,
        sixteen_to(1) == 0x10,
        sixteen_to(2) == 0x100,
        sixteen_to(3) == 0x1000,
        sixteen_to(4) == 0x1_0000,
        sixteen_to(5) == 0x10_0000,
        sixteen_to(6) == 0x100_0000,
        sixteen_to(7) == 0x1000_0000,
        sixteen_to(8) == 0x1_0000_0000,
{
    reveal_with_fuel(sixteen_to, 10);
}

fn digit(b: u8) -> (r: Option<u32>)
    ensures
        r == digit_of(b),
        r is Some ==> r->Some_0 < 16,
{
    if 0x30 <= b && b <= 0x39 {
        Some((b - 0x30) as u32)
    } else if 0x61 <= b && b <= 0x66 {
        Some((b - 0x61 + 10) as u32)
    } else if 0x41 <= b && b <= 0x46 {
        Some((b - 0x41 + 10) as u32)
    } else {
        None
    }
}

/// The number of bytes of the white-space character that starts at `i`.
fn space_at(s: &Vec<u8>, i: usize) -> (r: usize)
    requires
        i < s.len(),
    ensures
        r == space_len(s@, i as int),
        r <= 3,
        i + r <= s.len(),
{
    let a: u8 = s[i];
    if a == 0x20 || (0x09 <= a && a <= 0x0d) {
        1
    } else if i + 1 < s.len() && a == 0xc2 && (s[i + 1] == 0x85 || s[i + 1] == 0xa0) {
        2
    } else if i + 1 < s.len() && i + 2 < s.len() && wide_space(a, s[i + 1], s[i + 2]) {
        3
    } else {
        0
    }
}

fn wide_space(a: u8, b: u8, c: u8) -> (r: bool)
    ensures
        r == is_wide_space(a, b, c),
{
    (a == 0xe1 && b == 0x9a && c == 0x80) || (a == 0xe2 && b == 0x80 && ((0x80 <= c && c <= 0x8a)
        || c == 0xa8 || c == 0xa9 || c == 0xaf)) || (a == 0xe2 && b == 0x81 && c == 0x9f) || (a
        == 0xe3 && b == 0x80 && c == 0x80)
}

/// Reads the hexadecimal number of at most eight digits from `i` up to `j`.
fn read_hex(s: &Vec<u8>, i: usize, j: usize) -> (r: Option<u32>)
    requires
        i <= j <= s.len(),
        j - i <= 8,
    ensures
        match hex_value(s@, i as int, j as int) {
            Some(v) => r == Some(v as u32) && v < 0x1_0000_0000,
            None => r is None,
        },
{
    let mut acc: u64 = 0;
    let mut k: usize = i;
    while k < j
        invariant
            i <= k <= j <= s.len(),
            j - i <= 8,
            hex_value(s@, i as int, k as int) == Some(acc as nat),
            acc < sixteen_to((k - i) as nat),
        decreases j - k,
    {
        proof {
            lemma_sixteen();
        }
        match digit(s[k]) {
            None => {
                proof {
                    lemma_hex_fails(s@, i as int, k as int + 1, j as int);
                }
                return None;
            },
            Some(d) => {
                acc = acc * 16 + d as u64;
            },
        }
        k = k + 1;
    }
    proof {
        lemma_sixteen();
    }
    Some(acc as u32)
}

/// Once a prefix is no number, no longer run is one.
proof fn lemma_hex_fails(s: Seq<u8>, i: int, k: int, j: int)
    requires
        i <= k <= j,
        hex_value(s, i, k) is None,
    ensures
        hex_value(s, i, j) is None,
    decreases j - k,
{
    if k < j {
        lemma_hex_fails(s, i, k, j - 1);
    }
}

fn read_token(s: &Vec<u8>, i: usize, j: usize) -> (r: Option<u32>)
    requires
        i < j <= s.len(),
    ensures
        match token_word(s@, i as int, j as int) {
            Some(v) => r == Some(v as u32) && v < 0x1_0000_0000,
            None => r is None,
        },
{
    if j - i != 8 {
        None
    } else if s[i] == 0x2b {
        read_hex(s, i + 1, j)
    } else {
        read_hex(s, i, j)
    }
}

fn scan(s: &Vec<u8>, i: usize, stop: usize, b: u8) -> (r: usize)
    requires
        i <= stop <= s.len(),
    ensures
        r == find(s@, i as int, stop as int, b),
        i <= r <= stop,
        r < stop ==> s@[r as int] == b,
{
    let mut k: usize = i;
    while k < stop && s[k] != b
        invariant
            i <= k <= stop <= s.len(),
            find(s@, i as int, stop as int, b) == find(s@, k as int, stop as int, b),
        decreases stop - k,
    {
        k = k + 1;
    }
    k
}

fn skip_token(s: &Vec<u8>, i: usize) -> (r: usize)
    requires
        i < s.len(),
        space_len(s@, i as int) == 0,
    ensures
        r == token_end(s@, i as int),
        i < r <= s.len(),
{
    let mut k: usize = i + 1;
    while k < s.len() && space_at(s, k) == 0
        invariant
            i < k <= s.len(),
            token_end(s@, i as int) == token_end(s@, k as int),
        decreases s.len() - k,
    {
        k = k + 1;
    }
    k
}

fn read_words(s: &Vec<u8>, start: usize) -> (r: Vec<u32>)
    ensures
        r@ == words_from(s@, start as int),
{
    let mut out: Vec<u32> = Vec::new();
    let mut i: usize = start;
    while i < s.len()
        invariant
            words_from(s@, start as int) == out@ + words_from(s@, i as int),
        decreases s.len() - i,
    {
        let n: usize = space_at(s, i);
        if n > 0 {
            i = i + n;
        } else {
            let e: usize = skip_token(s, i);
            let ghost before = out@;
            match read_token(s, i, e) {
                Some(v) => {
                    out.push(v);
                    assert(before + (seq![v] + words_from(s@, e as int)) =~= out@ + words_from(
                        s@,
                        e as int,
                    ));
                },
                None => {},
            }
            i = e;
        }
    }
    assert(out@ + words_from(s@, i as int) =~= out@);
    out
}

fn read_name(s: &Vec<u8>, a: usize, stop: usize) -> (r: Option<Vec<u8>>)
    requires
        a <= stop <= s.len(),
    ensures
        match kernel_name(s@, a as int, stop as int) {
            Some(name) => r is Some && r->Some_0@ == name,
            None => r is None,
        },
{
    let p1: usize = scan(s, a, stop, 0x20);
    if p1 >= stop {
        return None;
    }
    let p2: usize = scan(s, p1 + 1, stop, 0x20);
    let mut name: Vec<u8> = Vec::new();
    let mut k: usize = p1 + 1;
    while k < p2
        invariant
            p1 + 1 <= k <= p2 <= s.len(),
            name@ == stripped(s@, p1 + 1, k as int),
        decreases p2 - k,
    {
        let b: u8 = s[k];
        if !(b == 0x3a || b == 0x3c || b == 0x3e) {
            name.push(b);
        }
        k = k + 1;
    }
    Some(name)
}

/// Where line `k` of the text starts, if it has that many lines.
fn start_of_line(s: &Vec<u8>, k: usize) -> (r: Option<usize>)
    ensures
        match line_start(s@, k as nat) {
            Some(a) => r == Some(a as usize) && 0 <= a < s.len(),
            None => r is None,
        },
{
    if s.len() == 0 {
        proof {
            lemma_no_lines(s@, k as nat);
        }
        return None;
    }
    let mut at: usize = 0;
    let mut n: usize = 0;
    while n < k
        invariant
            n <= k,
            at < s.len(),
            line_start(s@, n as nat) == Some(at as int),
        decreases k - n,
    {
        let e: usize = scan(s, at, s.len(), 0x0a);
        if e < s.len() && e + 1 < s.len() {
            at = e + 1;
            n = n + 1;
        } else {
            proof {
                lemma_lines_end(s@, (n + 1) as nat, k as nat);
            }
            return None;
        }
    }
    Some(at)
}

proof fn lemma_no_lines(s: Seq<u8>, k: nat)
    requires
        s.len() == 0,
    ensures
        line_start(s, k) is None,
    decreases k,
{
    if k > 0 {
        lemma_no_lines(s, (k - 1) as nat);
    }
}

proof fn lemma_lines_end(s: Seq<u8>, n: nat, k: nat)
    requires
        n <= k,
        line_start(s, n) is None,
    ensures
        line_start(s, k) is None,
    decreases k - n,
{
    if n < k {
        lemma_lines_end(s, n, (k - 1) as nat);
    }
}

/// Reads the program words and the kernel's name from a listing.
pub fn parse_rdna3(content: &Vec<u8>) -> (r: Option<(Vec<u32>, Vec<u8>)>)
    ensures
        match listing(content@) {
            Some((words, name)) => r is Some && r->Some_0.0@ == words && r->Some_0.1@ == name,
            None => r is None,
        },
{
    let a: usize = match start_of_line(content, 5) {
        Some(a) => a,
        None => {
            return None;
        },
    };
    let e: usize = scan(content, a, content.len(), 0x0a);
    let stop: usize = if e < content.len() && a < e && content[e - 1] == 0x0d {
        e - 1
    } else {
        e
    };
    let name: Vec<u8> = match read_name(content, a, stop) {
        Some(name) => name,
        None => {
            return None;
        },
    };
    let rest: usize = if e < content.len() {
        e + 1
    } else {
        e
    };
    proof {
        if e >= content.len() {
            assert(words_from(content@, e + 1) =~= words_from(content@, e as int));
        }
    }
    Some((read_words(content, rest), name))
}

} // verus!
