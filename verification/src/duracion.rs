//! Durations written the way the user reads them: `M:SS` below an hour,
//! `H:MM:SS` from an hour on.

use vstd::prelude::*;

verus! {

/// The character of the decimal digit `d` (below 10).
pub open spec fn digito(d: nat) -> char {
    if d == 0 { '0' }
    else if d == 1 { '1' }
    else if d == 2 { '2' }
    else if d == 3 { '3' }
    else if d == 4 { '4' }
    else if d == 5 { '5' }
    else if d == 6 { '6' }
    else if d == 7 { '7' }
    else if d == 8 { '8' }
    else { '9' }
}

/// The value of a digit character, -1 for any other character.
pub open spec fn valor_cifra(c: char) -> int {
    if c == '0' { 0 }
    else if c == '1' { 1 }
    else if c == '2' { 2 }
    else if c == '3' { 3 }
    else if c == '4' { 4 }
    else if c == '5' { 5 }
    else if c == '6' { 6 }
    else if c == '7' { 7 }
    else if c == '8' { 8 }
    else if c == '9' { 9 }
    else { -1 }
}

/// `n` in decimal, without leading zeros.
pub open spec fn decimal(n: nat) -> Seq<char>
    decreases n,
{
    if n < 10 {
        seq![digito(n)]
    } else {
        decimal(n / 10) + seq![digito(n % 10)]
    }
}

/// `n` in decimal, padded with a leading zero to at least two digits.
pub open spec fn dos_cifras(n: nat) -> Seq<char> {
    if n < 10 {
        seq!['0', digito(n)]
    } else {
        decimal(n)
    }
}

/// The hours, minutes and seconds of `s` seconds.
pub open spec fn horas(s: nat) -> nat {
    s / 3600
}

pub open spec fn minutos(s: nat) -> nat {
    (s % 3600) / 60
}

pub open spec fn segundos(s: nat) -> nat {
    s % 60
}

/// The text of a duration of `s` seconds: `H:MM:SS` when it is an hour or
/// more, `M:SS` otherwise.
pub open spec fn texto_duracion(s: nat) -> Seq<char> {
    if horas(s) > 0 {
        decimal(horas(s)) + seq![':'] + dos_cifras(minutos(s)) + seq![':'] + dos_cifras(segundos(s))
    } else {
        decimal(minutos(s)) + seq![':'] + dos_cifras(segundos(s))
    }
}

/// Reads a text of decimal fields separated by `:` from left to right: the
/// first component holds the fields read so far in base 60, the second the
/// field being read.
pub open spec fn lectura(t: Seq<char>) -> (int, int)
    decreases t.len(),
{
    if t.len() == 0 {
        (0, 0)
    } else {
        let prev = lectura(t.drop_last());
        if t.last() == ':' {
            ((prev.0 + prev.1) * 60, 0)
        } else {
            (prev.0, prev.1 * 10 + valor_cifra(t.last()))
        }
    }
}

/// The number of seconds that a text `H:MM:SS` or `M:SS` stands for.
pub open spec fn segundos_leidos(t: Seq<char>) -> int {
    lectura(t).0 + lectura(t).1
}

/// The value of a text of decimal digits.
pub open spec fn valor_decimal(t: Seq<char>) -> int {
    lectura(t).1
}

/// A text made of decimal digits only.
pub open spec fn solo_cifras(t: Seq<char>) -> bool {
    forall|i: int| 0 <= i < t.len() ==> 0 <= #[trigger] valor_cifra(t[i]) <= 9
}

proof fn lema_cifra(d: nat)
    requires
        d < 10,
    ensures
        valor_cifra(digito(d)) == d,
        digito(d) != ':',
{
}

proof fn lema_decimal(n: nat)
    ensures
        solo_cifras(decimal(n)),
        lectura(decimal(n)) == (0int, n as int),
    decreases n,
{
    if n >= 10 {
        lema_decimal(n / 10);
        lema_cifra(n % 10);
        let d = decimal(n);
        assert(d.drop_last() =~= decimal(n / 10));
        assert(d.last() == digito(n % 10));
        assert((n / 10) * 10 + n % 10 == n);
        assert(lectura(d) == (0int, ((n / 10) * 10 + n % 10) as int));
    } else {
        lema_cifra(n);
        let d = decimal(n);
        assert(d.drop_last() =~= Seq::<char>::empty());
        assert(lectura(Seq::<char>::empty()) == (0int, 0int));
        assert(d.last() == digito(n));
        assert(lectura(d) == (0int, n as int));
    }
}

proof fn lema_dos_cifras(n: nat)
    ensures
        solo_cifras(dos_cifras(n)),
        lectura(dos_cifras(n)) == (0int, n as int),
{
    if n < 10 {
        let d = dos_cifras(n);
        lema_cifra(n);
        assert(d.drop_last() =~= seq!['0']);
        assert(seq!['0'].drop_last() =~= Seq::<char>::empty());
        assert(lectura(Seq::<char>::empty()) == (0int, 0int));
        assert(lectura(seq!['0']) == (0int, 0int));
        assert(d.last() == digito(n));
        assert(lectura(d) == (0int, n as int));
    } else {
        lema_decimal(n);
    }
}

/// Reading digits after a point where no field is being read yields the
/// value of those digits as the current field.
proof fn lema_lectura_cifras(a: Seq<char>, d: Seq<char>)
    requires
        lectura(a).1 == 0,
        solo_cifras(d),
    ensures
        lectura(a + d) == (lectura(a).0, lectura(d).1),
    decreases d.len(),
{
    if d.len() == 0 {
        assert(a + d =~= a);
    } else {
        assert((a + d).drop_last() =~= a + d.drop_last());
        assert(valor_cifra(d[d.len() - 1]) >= 0);
        lema_lectura_cifras(a, d.drop_last());
    }
}

proof fn lema_lectura_dos_puntos(a: Seq<char>)
    ensures
        lectura(a + seq![':']) == ((lectura(a).0 + lectura(a).1) * 60, 0int),
{
    assert((a + seq![':']).drop_last() =~= a);
}

/// The text of a duration of `s` seconds reads back as `s` seconds.
pub proof fn ley_duracion_legible(s: nat)
    ensures
        segundos_leidos(texto_duracion(s)) == s,
        minutos(s) < 60,
        segundos(s) < 60,
        horas(s) * 3600 + minutos(s) * 60 + segundos(s) == s,
{
    let h = horas(s);
    let m = minutos(s);
    let x = segundos(s);
    assert(h * 3600 + m * 60 + x == s) by (nonlinear_arith)
        requires
            h == s / 3600,
            m == (s % 3600) / 60,
            x == s % 60,
    ;
    lema_dos_cifras(m);
    lema_dos_cifras(x);
    lema_decimal(h);
    lema_decimal(m);
    let e = Seq::<char>::empty();
    assert(e + decimal(h) =~= decimal(h));
    assert(e + decimal(m) =~= decimal(m));
    if h > 0 {
        let t1 = decimal(h) + seq![':'];
        lema_lectura_dos_puntos(decimal(h));
        lema_lectura_cifras(t1, dos_cifras(m));
        let t2 = t1 + dos_cifras(m) + seq![':'];
        lema_lectura_dos_puntos(t1 + dos_cifras(m));
        lema_lectura_cifras(t2, dos_cifras(x));
    } else {
        let t1 = decimal(m) + seq![':'];
        lema_lectura_dos_puntos(decimal(m));
        lema_lectura_cifras(t1, dos_cifras(x));
    }
}

/// The one-character text of the digit `d`.
fn texto_digito(d: u64) -> (r: &'static str)
    requires
        d < 10,
    ensures
        r@ == seq![digito(d as nat)],
{
    proof {
        reveal_strlit("0");
        reveal_strlit("1");
        reveal_strlit("2");
        reveal_strlit("3");
        reveal_strlit("4");
        reveal_strlit("5");
        reveal_strlit("6");
        reveal_strlit("7");
        reveal_strlit("8");
        reveal_strlit("9");
    }
    if d == 0 { "0" }
    else if d == 1 { "1" }
    else if d == 2 { "2" }
    else if d == 3 { "3" }
    else if d == 4 { "4" }
    else if d == 5 { "5" }
    else if d == 6 { "6" }
    else if d == 7 { "7" }
    else if d == 8 { "8" }
    else { "9" }
}

/// Appends `n` in decimal to `out`.
fn escribir_decimal(n: u64, out: &mut String)
    ensures
        final(out)@ == old(out)@ + decimal(n as nat),
    decreases n,
{
    if n >= 10 {
        escribir_decimal(n / 10, out);
    }
    out.append(texto_digito(n % 10));
    assert(decimal(n as nat) =~= if n < 10 { seq![digito(n as nat)] } else {
        decimal((n / 10) as nat) + seq![digito((n % 10) as nat)]
    });
}

/// Appends `n` in decimal, padded to two digits, to `out`.
fn escribir_dos_cifras(n: u64, out: &mut String)
    ensures
        final(out)@ == old(out)@ + dos_cifras(n as nat),
{
    if n < 10 {
        proof {
            reveal_strlit("0");
        }
        out.append("0");
        out.append(texto_digito(n));
        assert(dos_cifras(n as nat) =~= seq!['0'] + seq![digito(n as nat)]);
    } else {
        escribir_decimal(n, out);
    }
}

/// The text of a duration of `seconds` seconds: `H:MM:SS` from an hour on,
/// `M:SS` below.
pub fn format_duration(seconds: u64) -> (r: String)
    ensures
        r@ == texto_duracion(seconds as nat),
{
    let hours = seconds / 3600;
    let minutes = (seconds % 3600) / 60;
    let secs = seconds % 60;
    let mut out = String::new();
    proof {
        reveal_strlit(":");
    }
    if hours > 0 {
        escribir_decimal(hours, &mut out);
        out.append(":");
        escribir_dos_cifras(minutes, &mut out);
        out.append(":");
        escribir_dos_cifras(secs, &mut out);
    } else {
        escribir_decimal(minutes, &mut out);
        out.append(":");
        escribir_dos_cifras(secs, &mut out);
    }
    out
}

} // verus!
