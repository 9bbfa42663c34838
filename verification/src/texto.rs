//! Character-level searching in text, with the positions it finds stated
//! over `Seq<char>`.

use vstd::prelude::*;

verus! {

/// `p` occurs in `s` starting at character position `i`.
pub open spec fn aparece_en(s: Seq<char>, p: Seq<char>, i: int) -> bool {
    &&& 0 <= i
    &&& i + p.len() <= s.len()
    &&& s.subrange(i, i + p.len()) == p
}

/// `p` occurs somewhere in `s` (the empty pattern occurs in every text).
pub open spec fn contiene(s: Seq<char>, p: Seq<char>) -> bool {
    exists|i: int| aparece_en(s, p, i)
}

/// The first position at or after `k` where `p` occurs in `s`, or -1.
pub open spec fn busca_desde(s: Seq<char>, p: Seq<char>, k: int) -> int
    decreases s.len() + 1 - k,
{
    if k < 0 || k + p.len() > s.len() {
        -1
    } else if aparece_en(s, p, k) {
        k
    } else {
        busca_desde(s, p, k + 1)
    }
}

/// The first position where `p` occurs in `s`, or -1.
pub open spec fn primera_posicion(s: Seq<char>, p: Seq<char>) -> int {
    busca_desde(s, p, 0)
}

/// The first position at or after `k` that holds `c`, or -1.
pub open spec fn car_desde(s: Seq<char>, c: char, k: int) -> int
    decreases s.len() - k,
{
    if k < 0 || k >= s.len() {
        -1
    } else if s[k] == c {
        k
    } else {
        car_desde(s, c, k + 1)
    }
}

/// The last position before `k` that holds `c`, or -1.
pub open spec fn car_antes_de(s: Seq<char>, c: char, k: int) -> int
    decreases k,
{
    if k <= 0 {
        -1
    } else if k - 1 < s.len() && s[k - 1] == c {
        k - 1
    } else {
        car_antes_de(s, c, k - 1)
    }
}

/// What `busca_desde` finds: the least occurrence at or after `k`.
pub proof fn lema_busca_desde(s: Seq<char>, p: Seq<char>, k: int)
    requires
        0 <= k,
    ensures
        busca_desde(s, p, k) == -1 <==> (forall|j: int| k <= j ==> !aparece_en(s, p, j)),
        busca_desde(s, p, k) != -1 ==> {
            &&& k <= busca_desde(s, p, k)
            &&& aparece_en(s, p, busca_desde(s, p, k))
            &&& forall|j: int| k <= j < busca_desde(s, p, k) ==> !aparece_en(s, p, j)
        },
    decreases s.len() + 1 - k,
{
    if k + p.len() > s.len() {
    } else if aparece_en(s, p, k) {
    } else {
        lema_busca_desde(s, p, k + 1);
    }
}

/// `primera_posicion` is -1 exactly when `p` does not occur, and otherwise
/// the first occurrence.
pub proof fn lema_primera_posicion(s: Seq<char>, p: Seq<char>)
    ensures
        primera_posicion(s, p) == -1 <==> !contiene(s, p),
        primera_posicion(s, p) != -1 ==> {
            &&& aparece_en(s, p, primera_posicion(s, p))
            &&& forall|j: int| 0 <= j < primera_posicion(s, p) ==> !aparece_en(s, p, j)
        },
{
    lema_busca_desde(s, p, 0);
}

/// What `car_desde` finds: the least position at or after `k` holding `c`.
pub proof fn lema_car_desde(s: Seq<char>, c: char, k: int)
    requires
        0 <= k,
    ensures
        car_desde(s, c, k) == -1 <==> (forall|j: int| k <= j < s.len() ==> s[j] != c),
        car_desde(s, c, k) != -1 ==> {
            &&& k <= car_desde(s, c, k) < s.len()
            &&& s[car_desde(s, c, k)] == c
            &&& forall|j: int| k <= j < car_desde(s, c, k) ==> s[j] != c
        },
    decreases s.len() - k,
{
    if k >= s.len() {
    } else if s[k] == c {
    } else {
        lema_car_desde(s, c, k + 1);
    }
}

/// What `car_antes_de` finds: the greatest position below `k` holding `c`.
pub proof fn lema_car_antes_de(s: Seq<char>, c: char, k: int)
    requires
        k <= s.len(),
    ensures
        car_antes_de(s, c, k) == -1 <==> (forall|j: int| 0 <= j < k ==> s[j] != c),
        car_antes_de(s, c, k) != -1 ==> {
            &&& 0 <= car_antes_de(s, c, k) < k
            &&& s[car_antes_de(s, c, k)] == c
            &&& forall|j: int| car_antes_de(s, c, k) < j < k ==> s[j] != c
        },
    decreases k,
{
    if k <= 0 {
    } else if s[k - 1] == c {
    } else {
        lema_car_antes_de(s, c, k - 1);
    }
}

/// The characters of `s`, in order.
pub fn caracteres(s: &str) -> (v: Vec<char>)
    ensures
        v@ == s@,
{
    let mut v: Vec<char> = Vec::new();
    for c in it: s.chars()
        invariant
            v@ == it.seq().take(it.index() as int),
            it.seq() == s@,
    {
        v.push(c);
    }
    v
}

/// Whether `p` occurs in `s` at position `i`.
fn coincide_en(s: &Vec<char>, p: &Vec<char>, i: usize) -> (r: bool)
    requires
        i + p.len() <= s.len(),
    ensures
        r == aparece_en(s@, p@, i as int),
{
    let mut j: usize = 0;
    while j < p.len()
        invariant
            i + p.len() <= s.len(),
            j <= p.len(),
            forall|t: int| 0 <= t < j ==> s@[i + t] == p@[t],
        decreases p.len() - j,
    {
        if s[i + j] != p[j] {
            assert(s@.subrange(i as int, i + p.len())[j as int] != p@[j as int]);
            return false;
        }
        j = j + 1;
    }
    assert(s@.subrange(i as int, i + p.len()) =~= p@);
    true
}

/// The first position of `p` in `s`, as `primera_posicion` states it.
pub fn posicion(s: &Vec<char>, p: &Vec<char>) -> (r: Option<usize>)
    ensures
        match r {
            Some(i) => primera_posicion(s@, p@) == i as int,
            None => primera_posicion(s@, p@) == -1,
        },
{
    let mut i: usize = 0;
    if p.len() > s.len() {
        return None;
    }
    while i <= s.len() - p.len()
        invariant
            p.len() <= s.len(),
            i <= s.len() - p.len() + 1,
            busca_desde(s@, p@, 0) == busca_desde(s@, p@, i as int),
        decreases s.len() + 1 - i,
    {
        if coincide_en(s, p, i) {
            return Some(i);
        }
        if i == s.len() - p.len() {
            assert(busca_desde(s@, p@, i + 1) == -1);
            return None;
        }
        i = i + 1;
    }
    None
}

/// Whether `p` occurs in `s`.
pub fn contiene_texto(s: &str, p: &str) -> (r: bool)
    ensures
        r == contiene(s@, p@),
{
    let vs = caracteres(s);
    let vp = caracteres(p);
    let r = posicion(&vs, &vp);
    proof {
        lema_primera_posicion(s@, p@);
    }
    r.is_some()
}

/// The first position at or after `desde` that holds `c`.
pub fn posicion_car(s: &Vec<char>, c: char, desde: usize) -> (r: Option<usize>)
    ensures
        match r {
            Some(i) => car_desde(s@, c, desde as int) == i as int,
            None => car_desde(s@, c, desde as int) == -1,
        },
{
    let mut i: usize = desde;
    while i < s.len()
        invariant
            desde <= i,
            car_desde(s@, c, desde as int) == car_desde(s@, c, i as int),
        decreases s.len() - i,
    {
        if s[i] == c {
            return Some(i);
        }
        i = i + 1;
    }
    None
}

/// The last position of `s` that holds `c`.
pub fn ultima_posicion_car(s: &Vec<char>, c: char) -> (r: Option<usize>)
    ensures
        match r {
            Some(i) => car_antes_de(s@, c, s.len() as int) == i as int,
            None => car_antes_de(s@, c, s.len() as int) == -1,
        },
{
    let mut k: usize = s.len();
    while k > 0
        invariant
            k <= s.len(),
            car_antes_de(s@, c, s.len() as int) == car_antes_de(s@, c, k as int),
        decreases k,
    {
        if s[k - 1] == c {
            return Some(k - 1);
        }
        k = k - 1;
    }
    None
}

/// Whether the two texts are the same.
pub fn iguales(a: &str, b: &str) -> (r: bool)
    ensures
        r == (a@ == b@),
{
    let va = caracteres(a);
    let vb = caracteres(b);
    if va.len() != vb.len() {
        return false;
    }
    let mut i: usize = 0;
    while i < va.len()
        invariant
            va.len() == vb.len(),
            i <= va.len(),
            va@ == a@,
            vb@ == b@,
            forall|t: int| 0 <= t < i ==> va@[t] == vb@[t],
        decreases va.len() - i,
    {
        if va[i] != vb[i] {
            return false;
        }
        i = i + 1;
    }
    assert(va@ =~= vb@);
    true
}

} // verus!
