//! Bounded text used for the JSON payloads that travel in `Message::EcuJson`,
//! and the decimal rendering of integers and fixed-point values into it.
//!
//! The text lives in a `heapless::String<256>`; its contents are known to the
//! proofs as a sequence of bytes (`text_bytes`).

use vstd::prelude::*;
use vstd::string::StringSliceAdditionalSpecFns;
use vstd::utf8::*;

verus! {

#[verifier::external_type_specification]
#[verifier::external_body]
pub struct ExHeaplessString<const N: usize>(heapless::String<N>);

/// The bytes (UTF-8) held by a 256-byte heapless string.
pub uninterp spec fn text_bytes(s: heapless::String<256>) -> Seq<u8>;

/// The capacity of the text buffer, in bytes.
pub const TEXT_CAPACITY: usize = 256;

// ---------------------------------------------------------------------------
//  Trusted items: heapless::String<256> and core::str::from_utf8
// ---------------------------------------------------------------------------

/// `heapless::String::<256>::new`: an empty string.
#[verifier::external_body]
pub fn text_new() -> (s: heapless::String<256>)
    ensures
        text_bytes(s) == Seq::<u8>::empty(),
{
    heapless::String::new()
}

/// `heapless::String::<256>::push_str`: appends the bytes of `piece` when they
/// fit into the remaining capacity (it returns `Err(())` otherwise and leaves
/// the string untouched, as `Vec::extend_from_slice` in the crate's source does).
#[verifier::external_body]
pub fn text_push_str(s: &mut heapless::String<256>, piece: &str) -> (ok: bool)
    ensures
        ok == (text_bytes(*old(s)).len() + piece.spec_bytes().len() <= 256),
        ok ==> text_bytes(*final(s)) == text_bytes(*old(s)) + piece.spec_bytes(),
        !ok ==> *final(s) == *old(s),
{
    s.push_str(piece).is_ok()
}

/// `heapless::String::<256>::as_str`: the string's contents as a `&str`; the
/// string never holds more than its capacity.
#[verifier::external_body]
pub fn text_as_str(s: &heapless::String<256>) -> (r: &str)
    ensures
        r.spec_bytes() == text_bytes(*s),
        r.spec_bytes().len() <= 256,
{
    s.as_str()
}

/// `<heapless::String<256> as TryFrom<&str>>::try_from`: a copy of `s` when
/// its bytes fit into 256 bytes, `None` (the crate's `Err(())`) otherwise.
#[verifier::external_body]
pub fn text_try_from_str(s: &str) -> (r: Option<heapless::String<256>>)
    ensures
        r is Some <==> s.spec_bytes().len() <= 256,
        r matches Some(t) ==> text_bytes(t) == s.spec_bytes(),
{
    heapless::String::<256>::try_from(s).ok()
}

/// `core::str::from_utf8`: succeeds exactly on well-formed UTF-8, and the
/// resulting `&str` holds the same bytes.
#[verifier::external_body]
pub fn str_from_utf8(bytes: &[u8]) -> (r: Option<&str>)
    ensures
        r is Some <==> valid_utf8(bytes@),
        r matches Some(s) ==> s.spec_bytes() == bytes@,
{
    core::str::from_utf8(bytes).ok()
}

// ---------------------------------------------------------------------------
//  Decimal rendering (the same text that `{}` / `{:.k}` print)
// ---------------------------------------------------------------------------

/// ASCII code of the decimal digit `d`.
pub open spec fn digit_byte(d: nat) -> u8 {
    (48 + d) as u8
}

/// Decimal digits of `n`, most significant first, without leading zeros.
pub open spec fn dec_digits(n: nat) -> Seq<u8>
    decreases n,
{
    if n < 10 {
        seq![digit_byte(n)]
    } else {
        dec_digits(n / 10).push(digit_byte(n % 10))
    }
}

/// The lowest `k` decimal digits of `n`, zero padded, most significant first.
pub open spec fn frac_digits(n: nat, k: nat) -> Seq<u8>
    decreases k,
{
    if k == 0 {
        seq![]
    } else {
        frac_digits(n / 10, (k - 1) as nat).push(digit_byte(n % 10))
    }
}

/// `10^k`.
pub open spec fn pow10(k: nat) -> nat
    decreases k,
{
    if k == 0 {
        1
    } else {
        10 * pow10((k - 1) as nat)
    }
}

pub open spec fn abs(v: int) -> nat {
    if v < 0 {
        (-v) as nat
    } else {
        v as nat
    }
}

/// Text of a signed integer (`{}`).
pub open spec fn int_text(v: int) -> Seq<u8> {
    if v < 0 {
        seq![45u8] + dec_digits(abs(v))
    } else {
        dec_digits(abs(v))
    }
}

/// Text of the fixed-point value `v / 10^k` with exactly `k` decimals
/// (what `{:.k}` prints for that value), e.g. `fixed_text(-5, 1) == "-0.5"`.
pub open spec fn fixed_text(v: int, k: nat) -> Seq<u8> {
    (if v < 0 { seq![45u8] } else { seq![] }) + dec_digits(abs(v) / pow10(k)) + seq![46u8]
        + frac_digits(abs(v) % pow10(k), k)
}

/// Every text a string can take is UTF-8: sequences of ASCII bytes are.
pub open spec fn all_ascii(b: Seq<u8>) -> bool {
    forall|i: int| 0 <= i < b.len() ==> #[trigger] b[i] < 128
}

/// Appending `added` to `s_old` fits into the text capacity.
pub open spec fn fits(s_old: Seq<u8>, added: Seq<u8>) -> bool {
    s_old.len() + added.len() <= 256
}

/// A one-character string holding the digit `d`.
fn digit_str(d: u32) -> (r: &'static str)
    requires
        d < 10,
    ensures
        r.spec_bytes() == seq![digit_byte(d as nat)],
{
    if d == 0 {
        proof {
            reveal_strlit("0");
            vstd::string::is_ascii_spec_bytes("0");
            assert("0".spec_bytes() =~= seq![48u8]);
        }
        "0"
    } else if d == 1 {
        proof {
            reveal_strlit("1");
            vstd::string::is_ascii_spec_bytes("1");
            assert("1".spec_bytes() =~= seq![49u8]);
        }
        "1"
    } else if d == 2 {
        proof {
            reveal_strlit("2");
            vstd::string::is_ascii_spec_bytes("2");
            assert("2".spec_bytes() =~= seq![50u8]);
        }
        "2"
    } else if d == 3 {
        proof {
            reveal_strlit("3");
            vstd::string::is_ascii_spec_bytes("3");
            assert("3".spec_bytes() =~= seq![51u8]);
        }
        "3"
    } else if d == 4 {
        proof {
            reveal_strlit("4");
            vstd::string::is_ascii_spec_bytes("4");
            assert("4".spec_bytes() =~= seq![52u8]);
        }
        "4"
    } else if d == 5 {
        proof {
            reveal_strlit("5");
            vstd::string::is_ascii_spec_bytes("5");
            assert("5".spec_bytes() =~= seq![53u8]);
        }
        "5"
    } else if d == 6 {
        proof {
            reveal_strlit("6");
            vstd::string::is_ascii_spec_bytes("6");
            assert("6".spec_bytes() =~= seq![54u8]);
        }
        "6"
    } else if d == 7 {
        proof {
            reveal_strlit("7");
            vstd::string::is_ascii_spec_bytes("7");
            assert("7".spec_bytes() =~= seq![55u8]);
        }
        "7"
    } else if d == 8 {
        proof {
            reveal_strlit("8");
            vstd::string::is_ascii_spec_bytes("8");
            assert("8".spec_bytes() =~= seq![56u8]);
        }
        "8"
    } else {
        proof {
            reveal_strlit("9");
            vstd::string::is_ascii_spec_bytes("9");
            assert("9".spec_bytes() =~= seq![57u8]);
        }
        "9"
    }
}

/// Appends one ASCII text piece given as a string literal's bytes.
pub fn push_piece(s: &mut heapless::String<256>, piece: &str) -> (ok: bool)
    requires
        text_bytes(*old(s)).len() <= 256,
    ensures
        ok == fits(text_bytes(*old(s)), piece.spec_bytes()),
        ok ==> text_bytes(*final(s)) == text_bytes(*old(s)) + piece.spec_bytes(),
{
    text_push_str(s, piece)
}

/// Appends the decimal digits of `n`.
pub fn push_decimal(s: &mut heapless::String<256>, n: u32) -> (ok: bool)
    requires
        text_bytes(*old(s)).len() <= 256,
    ensures
        ok == fits(text_bytes(*old(s)), dec_digits(n as nat)),
        ok ==> text_bytes(*final(s)) == text_bytes(*old(s)) + dec_digits(n as nat),
    decreases n,
{
    let ghost start = text_bytes(*s);
    if n >= 10 {
        let ok = push_decimal(s, n / 10);
        if !ok {
            return false;
        }
    }
    let ghost mid = text_bytes(*s);
    let ok = text_push_str(s, digit_str(n % 10));
    proof {
        if n >= 10 {
            assert(dec_digits(n as nat) == dec_digits((n / 10) as nat).push(
                digit_byte((n % 10) as nat),
            ));
        } else {
            assert(dec_digits(n as nat) == seq![digit_byte(n as nat)]);
            assert(mid == start);
        }
        if ok {
            assert(text_bytes(*s) =~= start + dec_digits(n as nat));
        }
    }
    ok
}

/// Appends the lowest `k` digits of `n`, zero padded.
fn push_frac(s: &mut heapless::String<256>, n: u32, k: u32) -> (ok: bool)
    requires
        text_bytes(*old(s)).len() <= 256,
    ensures
        ok == fits(text_bytes(*old(s)), frac_digits(n as nat, k as nat)),
        ok ==> text_bytes(*final(s)) == text_bytes(*old(s)) + frac_digits(n as nat, k as nat),
    decreases k,
{
    let ghost start = text_bytes(*s);
    if k == 0 {
        assert(frac_digits(n as nat, 0) =~= Seq::<u8>::empty());
        assert(text_bytes(*s) =~= start + frac_digits(n as nat, 0));
        return true;
    }
    let ok = push_frac(s, n / 10, k - 1);
    if !ok {
        return false;
    }
    let ok = text_push_str(s, digit_str(n % 10));
    proof {
        assert(frac_digits(n as nat, k as nat) == frac_digits((n / 10) as nat, (k - 1) as nat).push(
            digit_byte((n % 10) as nat),
        ));
        if ok {
            assert(text_bytes(*s) =~= start + frac_digits(n as nat, k as nat));
        }
    }
    ok
}

/// Appends the text of the signed integer `v` (as `{}` prints it).
pub fn push_int(s: &mut heapless::String<256>, v: i32) -> (ok: bool)
    requires
        text_bytes(*old(s)).len() <= 256,
    ensures
        ok == fits(text_bytes(*old(s)), int_text(v as int)),
        ok ==> text_bytes(*final(s)) == text_bytes(*old(s)) + int_text(v as int),
{
    let ghost start = text_bytes(*s);
    let a: u32 = if v < 0 {
        (0i64 - v as i64) as u32
    } else {
        v as u32
    };
    if v < 0 {
        let ok = push_piece(s, "-");
        proof {
            reveal_strlit("-");
            vstd::string::is_ascii_spec_bytes("-");
            assert("-".spec_bytes() =~= seq![45u8]);
        }
        if !ok {
            return false;
        }
    }
    let ghost mid = text_bytes(*s);
    let ok = push_decimal(s, a);
    proof {
        assert(a as nat == abs(v as int));
        if v >= 0 {
            assert(mid == start);
        }
        if ok {
            assert(text_bytes(*s) =~= start + int_text(v as int));
        }
    }
    ok
}

/// `10^k` for the decimal counts used here.
fn pow10_exec(k: u32) -> (p: u32)
    requires
        k <= 4,
    ensures
        p as nat == pow10(k as nat),
        p >= 1,
{
    reveal_with_fuel(pow10, 5);
    if k == 0 {
        1
    } else if k == 1 {
        10
    } else if k == 2 {
        100
    } else if k == 3 {
        1000
    } else {
        10000
    }
}

/// Appends the text of `v / 10^k` with exactly `k` decimals.
pub fn push_fixed(s: &mut heapless::String<256>, v: i32, k: u32) -> (ok: bool)
    requires
        1 <= k <= 4,
        text_bytes(*old(s)).len() <= 256,
    ensures
        ok == fits(text_bytes(*old(s)), fixed_text(v as int, k as nat)),
        ok ==> text_bytes(*final(s)) == text_bytes(*old(s)) + fixed_text(v as int, k as nat),
{
    let ghost start = text_bytes(*s);
    let ghost sign: Seq<u8> = if v < 0 { seq![45u8] } else { seq![] };
    let a: u32 = if v < 0 {
        (0i64 - v as i64) as u32
    } else {
        v as u32
    };
    let p = pow10_exec(k);
    proof {
        reveal_strlit("-");
        reveal_strlit(".");
        vstd::string::is_ascii_spec_bytes("-");
        vstd::string::is_ascii_spec_bytes(".");
        assert("-".spec_bytes() =~= seq![45u8]);
        assert(".".spec_bytes() =~= seq![46u8]);
        assert(a as nat == abs(v as int));
    }
    let ghost total = fixed_text(v as int, k as nat);
    let ghost p1 = sign;
    let ghost p2 = p1 + dec_digits((a / p) as nat);
    let ghost p3 = p2 + seq![46u8];
    let ghost p4 = p3 + frac_digits((a % p) as nat, k as nat);
    assert(p4 =~= total);
    if v < 0 {
        if !push_piece(s, "-") {
            assert(!fits(start, total));
            return false;
        }
    }
    assert(text_bytes(*s) =~= start + p1);
    if !push_decimal(s, a / p) {
        assert(!fits(start, total));
        return false;
    }
    assert(text_bytes(*s) =~= start + p2);
    if !push_piece(s, ".") {
        assert(!fits(start, total));
        return false;
    }
    assert(text_bytes(*s) =~= start + p3);
    let ok = push_frac(s, a % p, k);
    proof {
        if ok {
            assert(text_bytes(*s) =~= start + p4);
        } else {
            assert(!fits(start, total));
        }
    }
    ok
}

} // verus!
