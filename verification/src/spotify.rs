//! What the downloader asks of Spotify's web API for a track link, and the
//! YouTube search it makes from the answer.

use vstd::prelude::*;
use crate::plataforma::{extraer_id_spotify, id_spotify};
use crate::respuesta::con_prefijo;

verus! {

/// The address of the Spotify web API entry for the track of link `url`.
pub open spec fn direccion_pista(url: Seq<char>) -> Seq<char> {
    "https://api.spotify.com/v1/tracks/"@ + id_spotify(url)
}

/// The `Authorization` header value for an access token.
pub open spec fn cabecera_autorizacion(token: Seq<char>) -> Seq<char> {
    "Bearer "@ + token
}

/// The texts of `l` joined with `sep` between each two.
pub open spec fn unir(l: Seq<Seq<char>>, sep: Seq<char>) -> Seq<char>
    decreases l.len(),
{
    if l.len() == 0 {
        seq![]
    } else if l.len() == 1 {
        l[0]
    } else {
        unir(l.drop_last(), sep) + sep + l.last()
    }
}

/// The YouTube search made for a track: its artists separated by spaces,
/// then its name, then its album's name.
pub open spec fn consulta_de_pista(artistas: Seq<Seq<char>>, nombre: Seq<char>, album: Seq<char>) -> Seq<
    char,
> {
    unir(artistas, " "@) + " "@ + nombre + " "@ + album
}

/// A track request to Spotify's web API: where to send it, and its
/// `Authorization` header.
pub struct PeticionPista {
    pub url: String,
    pub autorizacion: String,
}

/// The request for the track of the Spotify link `url`, made with the
/// access token `token`.
pub fn peticion_pista(url: &str, token: &str) -> (r: PeticionPista)
    ensures
        r.url@ == direccion_pista(url@),
        r.autorizacion@ == cabecera_autorizacion(token@),
{
    let id = extraer_id_spotify(url);
    PeticionPista {
        url: con_prefijo("https://api.spotify.com/v1/tracks/", id),
        autorizacion: con_prefijo("Bearer ", token),
    }
}

/// The YouTube search for the track named `nombre`, by `artistas`, from the
/// album `album`.
pub fn consulta_spotify(artistas: &Vec<String>, nombre: &str, album: &str) -> (r: String)
    ensures
        r@ == consulta_de_pista(artistas@.map_values(|a: String| a@), nombre@, album@),
{
    let ghost l = artistas@.map_values(|a: String| a@);
    let mut res = String::new();
    let mut i: usize = 0;
    while i < artistas.len()
        invariant
            i <= artistas.len(),
            l == artistas@.map_values(|a: String| a@),
            res@ == unir(l.take(i as int), " "@),
        decreases artistas.len() - i,
    {
        assert(l.take(i + 1).drop_last() =~= l.take(i as int));
        if i != 0 {
            res.append(" ");
        } else {
            assert(res@ =~= Seq::<char>::empty());
        }
        res.append(artistas[i].as_str());
        i = i + 1;
    }
    assert(l.take(artistas.len() as int) =~= l);
    res.append(" ");
    res.append(nombre);
    res.append(" ");
    res.append(album);
    res
}

/// The total length of the texts of `l`.
pub open spec fn suma_longitudes(l: Seq<Seq<char>>) -> int
    decreases l.len(),
{
    if l.len() == 0 {
        0
    } else {
        suma_longitudes(l.drop_last()) + l.last().len()
    }
}

/// Joining one more text adds the separator and that text at the end:
/// `join(l + [a]) == join(l) + sep + a` for any non-empty list `l`.
pub proof fn ley_unir_agrega(l: Seq<Seq<char>>, sep: Seq<char>, a: Seq<char>)
    requires
        l.len() > 0,
    ensures
        unir(l.push(a), sep) == unir(l, sep) + sep + a,
{
    assert(l.push(a).drop_last() =~= l);
}

/// Joining `n` texts with a separator puts it exactly `n - 1` times: the
/// result is as long as the texts together and `n - 1` separators.
pub proof fn ley_unir_longitud(l: Seq<Seq<char>>, sep: Seq<char>)
    requires
        l.len() > 0,
    ensures
        unir(l, sep).len() == suma_longitudes(l) + (l.len() - 1) * sep.len(),
    decreases l.len(),
{
    if l.len() == 1 {
        assert(l.drop_last() =~= Seq::<Seq<char>>::empty());
        assert(suma_longitudes(l.drop_last()) == 0);
        assert(l.last() == l[0]);
    } else {
        ley_unir_longitud(l.drop_last(), sep);
        assert((l.len() - 1) * sep.len() == (l.len() - 2) * sep.len() + sep.len()) by (nonlinear_arith);
    }
}

/// The search for a track names each of its artists in order, a single
/// space after each one (the last followed by the track's name), so that
/// adding an artist to a non-empty list inserts ` ` and that artist before
/// the name; and the search is as long as all the artists, the name and the
/// album together, plus one space between each two of them.
pub proof fn ley_consulta_de_pista(
    l: Seq<Seq<char>>,
    a: Seq<char>,
    nombre: Seq<char>,
    album: Seq<char>,
)
    requires
        l.len() > 0,
    ensures
        consulta_de_pista(l.push(a), nombre, album) == unir(l, " "@) + " "@ + a + " "@ + nombre
            + " "@ + album,
        consulta_de_pista(l, nombre, album).len() == suma_longitudes(l) + l.len() + 1
            + nombre.len() + album.len(),
{
    reveal_strlit(" ");
    ley_unir_agrega(l, " "@, a);
    ley_unir_longitud(l, " "@);
}

} // verus!
