//! Text that is shown to the user or handed to the resolver.
use vstd::prelude::*;

verus! {

/// The character of a decimal digit.
pub open spec fn digit_char(d: nat) -> char {
    (d + 48) as char
}

/// A number in decimal, without leading zeros.
pub open spec fn decimal(n: nat) -> Seq<char>
    decreases n,
{
    if n < 10 {
        seq![digit_char(n)]
    } else {
        decimal(n / 10).push(digit_char(n % 10))
    }
}

/// Bytes in decimal, separated by a comma and a space.
pub open spec fn byte_items(data: Seq<u8>) -> Seq<char>
    decreases data.len(),
{
    if data.len() == 0 {
        Seq::empty()
    } else if data.len() == 1 {
        decimal(data[0] as nat)
    } else {
        byte_items(data.drop_last()) + ", "@ + decimal(data.last() as nat)
    }
}

/// Bytes as a bracketed list.
pub open spec fn byte_list(data: Seq<u8>) -> Seq<char> {
    "["@ + byte_items(data) + "]"@
}

/// What `{:?}` prints for a string: the string in quotes, with escapes.
pub uninterp spec fn quoted(s: Seq<char>) -> Seq<char>;

/// The standard `Debug` formatting of a `str`. It depends on the string alone;
/// which characters are escaped, and how, is left to the name `quoted`.
#[verifier::external_body]
pub(crate) fn quote(s: &str) -> (r: String)
    ensures
        r@ == quoted(s@),
{
    format!("{:?}", s)
}

/// Whether two strings hold the same characters.
pub fn same_text(a: &str, b: &str) -> (r: bool)
    ensures
        r == (a@ == b@),
{
    a.to_owned() == b.to_owned()
}

fn digit(d: u64) -> (r: &'static str)
    requires
        d < 10,
    ensures
        r@ == seq![digit_char(d as nat)],
{
    proof {
        reveal_strlit("0");
        reveal_strlit("1");
        reveal_strlit("2");
        reveal_strlit("3");
        reveal_strlit("4");
        reveal_strlit("5");
        reveal_strlit("6");
        reveal_strlit("7");
        reveal_strlit("8");
        reveal_strlit("9");
    }
    match d {
        0 => "0",
        1 => "1",
        2 => "2",
        3 => "3",
        4 => "4",
        5 => "5",
        6 => "6",
        7 => "7",
        8 => "8",
        _ => "9",
    }
}

/// A number in decimal.
pub fn decimal_text(n: u64) -> (r: String)
    ensures
        r@ == decimal(n as nat),
    decreases n,
{
    if n < 10 {
        digit(n).to_owned()
    } else {
        let mut r = decimal_text(n / 10);
        r.append(digit(n % 10));
        assert(r@ =~= decimal(n as nat));
        r
    }
}

/// Bytes as a bracketed list, such as `[1, 2, 3]`.
pub fn byte_list_text(data: &Vec<u8>) -> (r: String)
    ensures
        r@ == byte_list(data@),
{
    let mut r = "[".to_owned();
    let mut i: usize = 0;
    assert(r@ =~= "["@ + byte_items(data@.take(0)));
    while i < data.len()
        invariant
            i <= data.len(),
            r@ == "["@ + byte_items(data@.take(i as int)),
        decreases data.len() - i,
    {
        let ghost before = data@.take(i as int);
        let ghost after = data@.take(i + 1);
        assert(after.drop_last() =~= before);
        if i > 0 {
            r.append(", ");
        }
        r.append(decimal_text(data[i] as u64).as_str());
        assert(r@ =~= "["@ + byte_items(after));
        i += 1;
    }
    assert(data@.take(i as int) =~= data@);
    r.append("]");
    r
}

/// A number in decimal is made of digits, and of at least one.
pub proof fn digits_only(n: nat)
    ensures
        decimal(n).len() > 0,
        forall|i: int| 0 <= i < decimal(n).len() ==> '0' <= #[trigger] decimal(n)[i] <= '9',
    decreases n,
{
    if n >= 10 {
        digits_only(n / 10);
    }
}

/// Different numbers are written differently.
pub proof fn decimal_is_injective(m: nat, n: nat)
    requires
        decimal(m) == decimal(n),
    ensures
        m == n,
    decreases m,
{
    digits_only(m / 10);
    digits_only(n / 10);
    assert(decimal(m).last() == digit_char(m % 10));
    assert(decimal(n).last() == digit_char(n % 10));
    assert(digit_char(m % 10) as nat == m % 10 + 48);
    assert(digit_char(n % 10) as nat == n % 10 + 48);
    if m >= 10 {
        assert(decimal(m).len() == decimal(m / 10).len() + 1);
    }
    if n >= 10 {
        assert(decimal(n).len() == decimal(n / 10).len() + 1);
    }
    if m >= 10 && n >= 10 {
        assert(decimal(m).drop_last() =~= decimal(m / 10));
        assert(decimal(n).drop_last() =~= decimal(n / 10));
        decimal_is_injective(m / 10, n / 10);
    }
}

} // verus!
