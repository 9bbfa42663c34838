//! Recognising what a link points at (a Spotify album, a YouTube playlist, ...)
//! and the small rewrites of a link that the downloader makes.

use vstd::prelude::*;
use crate::texto::{
    caracteres, car_antes_de, car_desde, contiene, contiene_texto,
    lema_car_antes_de, lema_car_desde, lema_primera_posicion, posicion, posicion_car,
    primera_posicion, ultima_posicion_car,
};

verus! {

/// The kinds of link that the downloader tells apart.
#[derive(Clone, Copy, Debug, PartialEq, Eq, Structural)]
pub enum Plataforma {
    SpotifyAlbum,
    SpotifyPlaylist,
    SpotifyTrack,
    Spotify,
    YoutubeMusicPlaylist,
    YoutubePlaylist,
    Youtube,
    Desconocida,
}

/// The kind of the link `url`, decided by the substrings it contains.
pub open spec fn plataforma_de(url: Seq<char>) -> Plataforma {
    if contiene(url, "spotify.com"@) {
        if contiene(url, "/album/"@) {
            Plataforma::SpotifyAlbum
        } else if contiene(url, "/playlist/"@) {
            Plataforma::SpotifyPlaylist
        } else if contiene(url, "/track/"@) {
            Plataforma::SpotifyTrack
        } else {
            Plataforma::Spotify
        }
    } else if contiene(url, "music.youtube.com"@) {
        if contiene(url, "playlist?list="@) || contiene(url, "&list="@) {
            Plataforma::YoutubeMusicPlaylist
        } else {
            Plataforma::Youtube
        }
    } else if contiene(url, "youtube.com"@) || contiene(url, "youtu.be"@) {
        if contiene(url, "list="@) && !contiene(url, "&index="@) {
            Plataforma::YoutubePlaylist
        } else {
            Plataforma::Youtube
        }
    } else {
        Plataforma::Desconocida
    }
}

/// The name under which each kind of link is reported.
pub open spec fn nombre_plataforma(p: Plataforma) -> Seq<char> {
    match p {
        Plataforma::SpotifyAlbum => "spotify_album"@,
        Plataforma::SpotifyPlaylist => "spotify_playlist"@,
        Plataforma::SpotifyTrack => "spotify_track"@,
        Plataforma::Spotify => "spotify"@,
        Plataforma::YoutubeMusicPlaylist => "youtube_music_playlist"@,
        Plataforma::YoutubePlaylist => "youtube_playlist"@,
        Plataforma::Youtube => "youtube"@,
        Plataforma::Desconocida => "unknown"@,
    }
}

/// A link names a playlist when it holds `list=` without `&index=`, or holds
/// `playlist?list=`.
pub open spec fn es_lista(url: Seq<char>) -> bool {
    (contiene(url, "list="@) && !contiene(url, "&index="@)) || contiene(url, "playlist?list="@)
}

/// The link without its `&list=...` tail: everything before the first
/// `&list=`, or the whole link where there is none.
pub open spec fn sin_lista(url: Seq<char>) -> Seq<char> {
    if primera_posicion(url, "&list="@) == -1 {
        url
    } else {
        url.take(primera_posicion(url, "&list="@))
    }
}

/// Where the identifier of a Spotify link starts: just after its last `/`.
pub open spec fn inicio_id(url: Seq<char>) -> int {
    car_antes_de(url, '/', url.len() as int) + 1
}

/// Where it ends: at the first `?` after its start, or at the end of the link.
pub open spec fn fin_id(url: Seq<char>) -> int {
    if car_desde(url, '?', inicio_id(url)) == -1 {
        url.len() as int
    } else {
        car_desde(url, '?', inicio_id(url))
    }
}

/// The identifier of a Spotify link: the text after its last `/`, up to the
/// first `?` that follows.
pub open spec fn id_spotify(url: Seq<char>) -> Seq<char> {
    url.subrange(inicio_id(url), fin_id(url))
}

impl Plataforma {
    /// The name under which this kind of link is reported.
    pub fn nombre(&self) -> (r: &'static str)
        ensures
            r@ == nombre_plataforma(*self),
    {
        match self {
            Plataforma::SpotifyAlbum => "spotify_album",
            Plataforma::SpotifyPlaylist => "spotify_playlist",
            Plataforma::SpotifyTrack => "spotify_track",
            Plataforma::Spotify => "spotify",
            Plataforma::YoutubeMusicPlaylist => "youtube_music_playlist",
            Plataforma::YoutubePlaylist => "youtube_playlist",
            Plataforma::Youtube => "youtube",
            Plataforma::Desconocida => "unknown",
        }
    }
}

/// The kind of the link `url`.
pub fn clasificar_plataforma(url: &str) -> (p: Plataforma)
    ensures
        p == plataforma_de(url@),
{
    if contiene_texto(url, "spotify.com") {
        if contiene_texto(url, "/album/") {
            Plataforma::SpotifyAlbum
        } else if contiene_texto(url, "/playlist/") {
            Plataforma::SpotifyPlaylist
        } else if contiene_texto(url, "/track/") {
            Plataforma::SpotifyTrack
        } else {
            Plataforma::Spotify
        }
    } else if contiene_texto(url, "music.youtube.com") {
        if contiene_texto(url, "playlist?list=") || contiene_texto(url, "&list=") {
            Plataforma::YoutubeMusicPlaylist
        } else {
            Plataforma::Youtube
        }
    } else if contiene_texto(url, "youtube.com") || contiene_texto(url, "youtu.be") {
        if contiene_texto(url, "list=") && !contiene_texto(url, "&index=") {
            Plataforma::YoutubePlaylist
        } else {
            Plataforma::Youtube
        }
    } else {
        Plataforma::Desconocida
    }
}

/// The name of the kind of the link `url`.
pub fn detectar_plataforma(url: &str) -> (r: &'static str)
    ensures
        r@ == nombre_plataforma(plataforma_de(url@)),
{
    clasificar_plataforma(url).nombre()
}

/// Whether the link `url` names a playlist.
pub fn es_playlist(url: &str) -> (r: bool)
    ensures
        r == es_lista(url@),
{
    (contiene_texto(url, "list=") && !contiene_texto(url, "&index=")) || contiene_texto(
        url,
        "playlist?list=",
    )
}

/// The link `url` without its `&list=...` tail.
pub fn limpiar_url_playlist(url: &str) -> (r: String)
    ensures
        r@ == sin_lista(url@),
{
    let vs = caracteres(url);
    let vp = caracteres("&list=");
    proof {
        lema_primera_posicion(url@, "&list="@);
    }
    match posicion(&vs, &vp) {
        Some(i) => url.substring_char(0, i).to_owned(),
        None => url.to_owned(),
    }
}

/// The identifier of the Spotify link `url`.
pub fn extraer_id_spotify(url: &str) -> (r: &str)
    ensures
        r@ == id_spotify(url@),
{
    let vs = caracteres(url);
    proof {
        lema_car_antes_de(url@, '/', url@.len() as int);
    }
    let inicio: usize = match ultima_posicion_car(&vs, '/') {
        Some(i) => i + 1,
        None => 0,
    };
    proof {
        lema_car_desde(url@, '?', inicio as int);
    }
    let fin: usize = match posicion_car(&vs, '?', inicio) {
        Some(j) => j,
        None => vs.len(),
    };
    url.substring_char(inicio, fin)
}

} // verus!
