//! Turning what `yt-dlp` answered (its exit status, its error output and its
//! JSON) into the information shown to the user.

use vstd::prelude::*;
use crate::duracion::{format_duration, texto_duracion};
use crate::json::{
    error_de_json, json_cadena, json_error, json_natural, json_primera_miniatura, json_valido,
    leer_cadena, leer_natural, leer_primera_miniatura,
};
use crate::modelo::{
    formatos_de_spotify, formatos_ofrecidos, formatos_spotify, formatos_video, o_bien,
    vista_opcional, InfoVista, VideoInfo,
};

verus! {

/// The fields of `yt-dlp`'s JSON that the downloader reads.
#[derive(Clone, Debug)]
pub struct MetadatosYtDlp {
    pub title: Option<String>,
    pub playlist_title: Option<String>,
    pub duration: Option<u64>,
    pub thumbnail: Option<String>,
    pub primera_miniatura: Option<String>,
}

/// The view of `MetadatosYtDlp`.
pub struct MetadatosVista {
    pub title: Option<Seq<char>>,
    pub playlist_title: Option<Seq<char>>,
    pub duration: Option<u64>,
    pub thumbnail: Option<Seq<char>>,
    pub primera_miniatura: Option<Seq<char>>,
}

impl View for MetadatosYtDlp {
    type V = MetadatosVista;

    open spec fn view(&self) -> MetadatosVista {
        MetadatosVista {
            title: vista_opcional(self.title),
            playlist_title: vista_opcional(self.playlist_title),
            duration: self.duration,
            thumbnail: vista_opcional(self.thumbnail),
            primera_miniatura: vista_opcional(self.primera_miniatura),
        }
    }
}

/// The fields that the JSON text `texto` holds.
pub open spec fn metadatos_de(texto: Seq<char>) -> MetadatosVista {
    MetadatosVista {
        title: json_cadena(texto, "title"@),
        playlist_title: json_cadena(texto, "playlist_title"@),
        duration: json_natural(texto, "duration"@),
        thumbnail: json_cadena(texto, "thumbnail"@),
        primera_miniatura: json_primera_miniatura(texto),
    }
}

/// The duration field, 0 where it is missing.
pub open spec fn duracion_o_cero(m: MetadatosVista) -> nat {
    match m.duration {
        Some(d) => d as nat,
        None => 0,
    }
}

/// The information on a YouTube link (a playlist where `is_playlist`): the
/// playlist's title or the video's, with defaults, its duration, its
/// thumbnail, and the formats offered for it.
pub open spec fn info_youtube(m: MetadatosVista, is_playlist: bool) -> InfoVista {
    InfoVista {
        title: if is_playlist {
            o_bien(m.playlist_title, "Playlist"@)
        } else {
            o_bien(m.title, "Desconocido"@)
        },
        duration: texto_duracion(duracion_o_cero(m)),
        thumbnail: if is_playlist {
            o_bien(m.primera_miniatura, ""@)
        } else {
            o_bien(m.thumbnail, ""@)
        },
        formats: formatos_ofrecidos(is_playlist),
        is_spotify: false,
        is_playlist,
    }
}

/// The information on a song found on YouTube for a Spotify track.
pub open spec fn info_spotify(m: MetadatosVista) -> InfoVista {
    InfoVista {
        title: o_bien(m.title, "Desconocido"@),
        duration: texto_duracion(duracion_o_cero(m)),
        thumbnail: o_bien(m.thumbnail, ""@),
        formats: formatos_de_spotify(),
        is_spotify: true,
        is_playlist: false,
    }
}

/// The error answered where `yt-dlp`'s output `texto` is not JSON:
/// `Error al parsear JSON: ` followed by serde_json's account of it.
pub open spec fn mensaje_error_json(texto: Seq<char>) -> Seq<char> {
    "Error al parsear JSON: "@ + o_bien(json_error(texto), ""@)
}

/// The text held by `o`, or `d`.
fn texto_o(o: &Option<String>, d: &str) -> (r: String)
    ensures
        r@ == o_bien(vista_opcional(*o), d@),
{
    match o {
        Some(s) => s.clone(),
        None => d.to_owned(),
    }
}

/// The fields of `yt-dlp`'s JSON answer `texto`, or, where it is not JSON,
/// an error that says so.
pub fn leer_metadatos(texto: &str) -> (r: Result<MetadatosYtDlp, String>)
    ensures
        r is Ok <==> json_valido(texto@),
        r matches Ok(m) ==> m@ == metadatos_de(texto@),
        r matches Err(e) ==> e@ == mensaje_error_json(texto@),
{
    match error_de_json(texto) {
        Some(d) => Err(con_prefijo("Error al parsear JSON: ", d.as_str())),
        None => {
            let m = MetadatosYtDlp {
                title: leer_cadena(texto, "title"),
                playlist_title: leer_cadena(texto, "playlist_title"),
                duration: leer_natural(texto, "duration"),
                thumbnail: leer_cadena(texto, "thumbnail"),
                primera_miniatura: leer_primera_miniatura(texto),
            };
            Ok(m)
        },
    }
}

/// The information on a YouTube link, from the fields of `yt-dlp`'s answer.
pub fn componer_video_info(m: &MetadatosYtDlp, is_playlist: bool) -> (r: VideoInfo)
    ensures
        r@ == info_youtube(m@, is_playlist),
{
    let title = if is_playlist {
        texto_o(&m.playlist_title, "Playlist")
    } else {
        texto_o(&m.title, "Desconocido")
    };
    let segundos: u64 = match m.duration {
        Some(d) => d,
        None => 0,
    };
    let duration = format_duration(segundos);
    let thumbnail = if is_playlist {
        texto_o(&m.primera_miniatura, "")
    } else {
        texto_o(&m.thumbnail, "")
    };
    let formats = formatos_video(is_playlist);
    VideoInfo { title, duration, thumbnail, formats, is_spotify: false, is_playlist }
}

/// The information on a song found for a Spotify track, from the fields of
/// `yt-dlp`'s answer.
pub fn componer_info_spotify(m: &MetadatosYtDlp) -> (r: VideoInfo)
    ensures
        r@ == info_spotify(m@),
{
    let title = texto_o(&m.title, "Desconocido");
    let segundos: u64 = match m.duration {
        Some(d) => d,
        None => 0,
    };
    let duration = format_duration(segundos);
    let thumbnail = texto_o(&m.thumbnail, "");
    let formats = formatos_spotify();
    VideoInfo { title, duration, thumbnail, formats, is_spotify: true, is_playlist: false }
}

/// `prefijo` followed by `texto`.
pub fn con_prefijo(prefijo: &str, texto: &str) -> (r: String)
    ensures
        r@ == prefijo@ + texto@,
{
    prefijo.to_owned().concat(texto)
}

/// What `get_video_info` answers once `yt-dlp` has run on a YouTube link:
/// its error output where it failed, an error where its output is not JSON,
/// and otherwise the information read from that output.
pub fn info_de_ytdlp(exito: bool, stderr: &str, stdout: &str, is_playlist: bool) -> (r: Result<
    VideoInfo,
    String,
>)
    ensures
        !exito ==> (r matches Err(e) && e@ == "Error en yt-dlp: "@ + stderr@),
        exito ==> (r is Ok <==> json_valido(stdout@)),
        exito && !json_valido(stdout@) ==> (r matches Err(e) && e@ == mensaje_error_json(stdout@)),
        r matches Ok(v) ==> v@ == info_youtube(metadatos_de(stdout@), is_playlist),
{
    if !exito {
        return Err(con_prefijo("Error en yt-dlp: ", stderr));
    }
    match leer_metadatos(stdout) {
        Err(e) => Err(e),
        Ok(m) => Ok(componer_video_info(&m, is_playlist)),
    }
}

/// What `buscar_spotify_manual` answers once `yt-dlp` has searched YouTube:
/// its error output where it failed, an error where its output is not JSON,
/// and otherwise the information on the song found.
pub fn info_de_busqueda(exito: bool, stderr: &str, stdout: &str) -> (r: Result<VideoInfo, String>)
    ensures
        !exito ==> (r matches Err(e) && e@ == "Error en busqueda: "@ + stderr@),
        exito ==> (r is Ok <==> json_valido(stdout@)),
        exito && !json_valido(stdout@) ==> (r matches Err(e) && e@ == mensaje_error_json(stdout@)),
        r matches Ok(v) ==> v@ == info_spotify(metadatos_de(stdout@)),
{
    if !exito {
        return Err(con_prefijo("Error en busqueda: ", stderr));
    }
    match leer_metadatos(stdout) {
        Err(e) => Err(e),
        Ok(m) => Ok(componer_info_spotify(&m)),
    }
}

} // verus!
