//! Which files are read as images, and how saved face crops are named.
use vstd::prelude::*;

verus! {

/// Relies on `String::push`: appends one character at the end.
pub assume_specification[ String::push ](s: &mut String, ch: char)
    ensures
        final(s)@ == old(s)@.push(ch),
;

/// The decimal digit character for `d < 10`.
pub open spec fn digit_char(d: nat) -> char {
    seq!['0', '1', '2', '3', '4', '5', '6', '7', '8', '9'][d as int]
}

/// The decimal notation of `n`, without leading zeros.
pub open spec fn decimal(n: nat) -> Seq<char>
    decreases n,
{
    if n < 10 {
        seq![digit_char(n)]
    } else {
        decimal(n / 10).push(digit_char(n % 10))
    }
}

/// The decimal notation of `n`, with zeros in front up to `width` characters.
pub open spec fn zero_padded(n: nat, width: nat) -> Seq<char> {
    let d = decimal(n);
    if d.len() < width {
        Seq::new((width - d.len()) as nat, |_i: int| '0') + d
    } else {
        d
    }
}

/// Width of the zero-padded sequence number in a crop's file name.
pub const SEQUENCE_WIDTH: usize = 4;

/// The file name of a saved crop:
/// `{stem}_{sequence, zero-padded to 4}_{score_label}.jpg`.
pub open spec fn face_file_name_spec(stem: Seq<char>, sequence: nat, score_label: Seq<char>) -> Seq<char> {
    stem + seq!['_'] + zero_padded(sequence, SEQUENCE_WIDTH as nat) + seq!['_'] + score_label + seq![
        '.',
        'j',
        'p',
        'g',
    ]
}

/// The stem used for a source file whose name has none that can be read.
pub open spec fn unknown_stem() -> Seq<char> {
    seq!['u', 'n', 'k', 'n', 'o', 'w', 'n']
}

/// A character's code with ASCII capitals folded to lower case.
pub open spec fn folded_code(c: char) -> u32 {
    if 65 <= c as u32 <= 90 {
        (c as u32 + 32) as u32
    } else {
        c as u32
    }
}

/// Equality of two texts up to ASCII case.
pub open spec fn eq_ascii_case_insensitive(a: Seq<char>, b: Seq<char>) -> bool {
    a.len() == b.len() && forall|i: int| 0 <= i < a.len() ==> folded_code(#[trigger] a[i]) == folded_code(b[i])
}

/// Whether a file extension names an image format that is read:
/// jpg, jpeg, png or bmp, in any case.
pub open spec fn is_image_extension_spec(ext: Seq<char>) -> bool {
    ||| eq_ascii_case_insensitive(ext, "jpg"@)
    ||| eq_ascii_case_insensitive(ext, "jpeg"@)
    ||| eq_ascii_case_insensitive(ext, "png"@)
    ||| eq_ascii_case_insensitive(ext, "bmp"@)
}

fn digit(d: usize) -> (c: char)
    requires
        d < 10,
    ensures
        c == digit_char(d as nat),
{
    if d == 0 {
        '0'
    } else if d == 1 {
        '1'
    } else if d == 2 {
        '2'
    } else if d == 3 {
        '3'
    } else if d == 4 {
        '4'
    } else if d == 5 {
        '5'
    } else if d == 6 {
        '6'
    } else if d == 7 {
        '7'
    } else if d == 8 {
        '8'
    } else {
        '9'
    }
}

proof fn lemma_decimal_len(n: nat)
    ensures
        1 <= decimal(n).len() <= n + 1,
    decreases n,
{
    if n >= 10 {
        lemma_decimal_len(n / 10);
    }
}

/// The number of decimal digits of `n`.
fn decimal_len(n: usize) -> (r: usize)
    ensures
        r == decimal(n as nat).len(),
    decreases n,
{
    if n < 10 {
        1
    } else {
        let k = decimal_len(n / 10);
        proof {
            lemma_decimal_len((n / 10) as nat);
        }
        k + 1
    }
}

/// Appends the decimal notation of `n`.
fn push_decimal(out: &mut String, n: usize)
    ensures
        final(out)@ == old(out)@ + decimal(n as nat),
    decreases n,
{
    if n >= 10 {
        push_decimal(out, n / 10);
    }
    out.push(digit(n % 10));
    proof {
        if n >= 10 {
            assert(old(out)@ + decimal(n as nat) =~= (old(out)@ + decimal((n / 10) as nat)).push(
                digit_char((n % 10) as nat),
            ));
        } else {
            assert(old(out)@ + decimal(n as nat) =~= old(out)@.push(digit_char(n as nat)));
        }
    }
}

/// Appends `n` in decimal, zero-padded to `width` characters.
pub fn push_zero_padded(out: &mut String, n: usize, width: usize)
    ensures
        final(out)@ == old(out)@ + zero_padded(n as nat, width as nat),
{
    let len = decimal_len(n);
    let pad: usize = if len < width { width - len } else { 0 };
    let mut i: usize = 0;
    while i < pad
        invariant
            i <= pad,
            out@ == old(out)@ + Seq::new(i as nat, |_j: int| '0'),
        decreases pad - i,
    {
        out.push('0');
        assert(old(out)@ + Seq::new((i + 1) as nat, |_j: int| '0') =~= (old(out)@ + Seq::new(
            i as nat,
            |_j: int| '0',
        )).push('0'));
        i = i + 1;
    }
    push_decimal(out, n);
    assert(out@ =~= old(out)@ + zero_padded(n as nat, width as nat));
}

/// Appends every character of `s`.
fn push_all(out: &mut String, s: &str)
    ensures
        final(out)@ == old(out)@ + s@,
{
    out.append(s);
}

/// The name under which the crop of a face is saved: the source file's stem,
/// the crop's sequence number in the run (zero-padded to four digits) and the
/// score label, joined by underscores, with the extension `.jpg`.
pub fn face_file_name(stem: &str, sequence: usize, score_label: &str) -> (r: String)
    ensures
        r@ == face_file_name_spec(stem@, sequence as nat, score_label@),
{
    let mut out = String::new();
    push_all(&mut out, stem);
    out.push('_');
    push_zero_padded(&mut out, sequence, SEQUENCE_WIDTH);
    out.push('_');
    push_all(&mut out, score_label);
    out.push('.');
    out.push('j');
    out.push('p');
    out.push('g');
    assert(out@ =~= face_file_name_spec(stem@, sequence as nat, score_label@));
    out
}

/// The stem to name crops by: the source file's own, or `unknown`.
pub fn stem_or_unknown(stem: Option<&str>) -> (r: &str)
    ensures
        r@ == match stem {
            Some(s) => s@,
            None => unknown_stem(),
        },
{
    match stem {
        Some(s) => s,
        None => {
            proof {
                reveal_strlit("unknown");
            }
            "unknown"
        },
    }
}

fn fold_code(c: char) -> (r: u32)
    ensures
        r == folded_code(c),
{
    let code = c as u32;
    if 65 <= code && code <= 90 {
        code + 32
    } else {
        code
    }
}

/// Compares two texts, ignoring ASCII case.
pub fn eq_ignore_ascii_case(a: &str, b: &str) -> (r: bool)
    ensures
        r == eq_ascii_case_insensitive(a@, b@),
{
    let n = a.unicode_len();
    if n != b.unicode_len() {
        return false;
    }
    let mut i: usize = 0;
    while i < n
        invariant
            n == a@.len(),
            n == b@.len(),
            i <= n,
            forall|j: int| 0 <= j < i ==> folded_code(#[trigger] a@[j]) == folded_code(b@[j]),
        decreases n - i,
    {
        if fold_code(a.get_char(i)) != fold_code(b.get_char(i)) {
            return false;
        }
        i = i + 1;
    }
    true
}

/// Whether a file with this extension is read as an image.
pub fn is_image_extension(ext: &str) -> (r: bool)
    ensures
        r == is_image_extension_spec(ext@),
{
    eq_ignore_ascii_case(ext, "jpg") || eq_ignore_ascii_case(ext, "jpeg") || eq_ignore_ascii_case(
        ext,
        "png",
    ) || eq_ignore_ascii_case(ext, "bmp")
}

/// The number that a digit character stands for.
pub open spec fn digit_value(c: char) -> int {
    c as int - '0' as int
}

/// The number that a text of decimal digits stands for
/// (leading zeros add nothing).
pub open spec fn decimal_value(s: Seq<char>) -> int
    decreases s.len(),
{
    if s.len() == 0 {
        0
    } else {
        decimal_value(s.drop_last()) * 10 + digit_value(s.last())
    }
}

proof fn lemma_digit_value(d: nat)
    requires
        d < 10,
    ensures
        digit_value(digit_char(d)) == d,
{
    if d == 0 {
    } else if d == 1 {
    } else if d == 2 {
    } else if d == 3 {
    } else if d == 4 {
    } else if d == 5 {
    } else if d == 6 {
    } else if d == 7 {
    } else if d == 8 {
    } else {
    }
}

proof fn lemma_decimal_value(n: nat)
    ensures
        decimal_value(decimal(n)) == n,
    decreases n,
{
    lemma_digit_value(n % 10);
    if n >= 10 {
        lemma_decimal_value(n / 10);
        assert(decimal(n).drop_last() =~= decimal(n / 10));
        assert(decimal(n).last() == digit_char(n % 10));
        assert((n / 10) * 10 + n % 10 == n);
        assert(decimal_value(decimal(n)) == decimal_value(decimal(n / 10)) * 10 + digit_value(
            digit_char(n % 10),
        ));
    } else {
        assert(decimal(n).drop_last() =~= Seq::<char>::empty());
        assert(decimal_value(Seq::<char>::empty()) == 0);
        assert(decimal(n).last() == digit_char(n));
        assert(decimal_value(decimal(n)) == 0 * 10 + digit_value(digit_char(n)));
    }
}

proof fn lemma_zeros_value(k: nat)
    ensures
        decimal_value(Seq::new(k, |_i: int| '0')) == 0,
    decreases k,
{
    if k > 0 {
        lemma_zeros_value((k - 1) as nat);
        assert(Seq::new(k, |_i: int| '0').drop_last() =~= Seq::new((k - 1) as nat, |_i: int| '0'));
    }
}

proof fn lemma_leading_zeros_value(k: nat, s: Seq<char>)
    ensures
        decimal_value(Seq::new(k, |_i: int| '0') + s) == decimal_value(s),
    decreases s.len(),
{
    let zeros = Seq::new(k, |_i: int| '0');
    if s.len() == 0 {
        assert(zeros + s =~= zeros);
        lemma_zeros_value(k);
    } else {
        lemma_leading_zeros_value(k, s.drop_last());
        assert((zeros + s).drop_last() =~= zeros + s.drop_last());
    }
}

proof fn lemma_zero_padded_value(n: nat, width: nat)
    ensures
        decimal_value(zero_padded(n, width)) == n,
{
    lemma_decimal_value(n);
    let d = decimal(n);
    if d.len() < width {
        lemma_leading_zeros_value((width - d.len()) as nat, d);
    }
}

/// Crops of one source file with one score label but different sequence
/// numbers get different file names; since each crop of a run gets a new
/// sequence number, no two crops of a run share a name.
pub proof fn lemma_file_names_distinct(stem: Seq<char>, score_label: Seq<char>, a: nat, b: nat)
    requires
        a != b,
    ensures
        face_file_name_spec(stem, a, score_label) != face_file_name_spec(stem, b, score_label),
{
    let pa = zero_padded(a, SEQUENCE_WIDTH as nat);
    let pb = zero_padded(b, SEQUENCE_WIDTH as nat);
    let na = face_file_name_spec(stem, a, score_label);
    let nb = face_file_name_spec(stem, b, score_label);
    lemma_zero_padded_value(a, SEQUENCE_WIDTH as nat);
    lemma_zero_padded_value(b, SEQUENCE_WIDTH as nat);
    if na == nb {
        let start: int = stem.len() as int + 1;
        assert(na.len() == stem.len() + 1 + pa.len() + 1 + score_label.len() + 4);
        assert(nb.len() == stem.len() + 1 + pb.len() + 1 + score_label.len() + 4);
        assert(pa.len() == pb.len());
        assert(na.subrange(start, start + pa.len()) =~= pa);
        assert(nb.subrange(start, start + pb.len()) =~= pb);
    }
}

} // verus!
