//! Text building blocks: decimal numerals, boolean words and answers.
use vstd::prelude::*;

verus! {

/// An answer of the contract, with its text taken as a sequence of characters.
pub type Respuesta = Result<Seq<char>, Seq<char>>;

/// The answer that an executable `Result<String, String>` carries.
pub open spec fn vista_respuesta(r: Result<String, String>) -> Respuesta {
    match r {
        Ok(t) => Ok(t@),
        Err(e) => Err(e@),
    }
}

/// The decimal digit character for a value below ten.
pub open spec fn cifra(d: nat) -> char {
    (48 + d) as char
}

/// Decimal numeral of a natural number, most significant digit first, without leading zeros.
pub open spec fn decimal(n: nat) -> Seq<char>
    decreases n,
{
    if n < 10 {
        seq![cifra(n)]
    } else {
        decimal(n / 10).push(cifra(n % 10))
    }
}

/// The word that Rust's `bool` displays as.
pub open spec fn palabra_bool(b: bool) -> Seq<char> {
    if b {
        seq!['t', 'r', 'u', 'e']
    } else {
        seq!['f', 'a', 'l', 's', 'e']
    }
}

fn texto_cifra(d: u64) -> (r: &'static str)
    requires
        d < 10,
    ensures
        r@ == seq![cifra(d as nat)],
{
    proof {
        reveal_strlit("0");
        reveal_strlit("1");
        reveal_strlit("2");
        reveal_strlit("3");
        reveal_strlit("4");
        reveal_strlit("5");
        reveal_strlit("6");
        reveal_strlit("7");
        reveal_strlit("8");
        reveal_strlit("9");
    }
    if d == 0 {
        "0"
    } else if d == 1 {
        "1"
    } else if d == 2 {
        "2"
    } else if d == 3 {
        "3"
    } else if d == 4 {
        "4"
    } else if d == 5 {
        "5"
    } else if d == 6 {
        "6"
    } else if d == 7 {
        "7"
    } else if d == 8 {
        "8"
    } else {
        "9"
    }
}

/// The decimal numeral of `n`, as `u64`'s `to_string` writes it.
pub fn texto_u64(n: u64) -> (r: String)
    ensures
        r@ == decimal(n as nat),
    decreases n,
{
    if n < 10 {
        String::from_str(texto_cifra(n))
    } else {
        let mut s = texto_u64(n / 10);
        s.append(texto_cifra(n % 10));
        s
    }
}

/// The word `true` or `false`, as `bool`'s `to_string` writes it.
pub fn texto_bool(b: bool) -> (r: String)
    ensures
        r@ == palabra_bool(b),
{
    proof {
        reveal_strlit("true");
        reveal_strlit("false");
    }
    if b {
        String::from_str("true")
    } else {
        String::from_str("false")
    }
}

/// A successful answer with the given text.
pub fn exito(m: &str) -> (r: Result<String, String>)
    ensures
        vista_respuesta(r) == Ok::<Seq<char>, Seq<char>>(m@),
{
    Ok(String::from_str(m))
}

/// A refusal with the given text.
pub fn rechazo(m: &str) -> (r: Result<String, String>)
    ensures
        vista_respuesta(r) == Err::<Seq<char>, Seq<char>>(m@),
{
    Err(String::from_str(m))
}

} // verus!
