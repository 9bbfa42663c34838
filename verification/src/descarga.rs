//! The `yt-dlp` command lines of the downloader: what is asked of `yt-dlp`
//! to show a link, to search for a Spotify song, and to download in each
//! offered format; and what is answered once it has run.

use vstd::prelude::*;
use crate::plataforma::{
    clasificar_plataforma, es_lista, es_playlist, limpiar_url_playlist, plataforma_de,
    sin_lista, Plataforma,
};
use crate::respuesta::con_prefijo;
use crate::texto::iguales;

verus! {

/// The views of a sequence of texts.
pub open spec fn vistas_textos(v: Seq<String>) -> Seq<Seq<char>> {
    v.map_values(|s: String| s@)
}

/// The links whose song must be searched for on YouTube by name.
pub open spec fn necesita_busqueda(p: Plataforma) -> bool {
    p == Plataforma::Spotify || p == Plataforma::SpotifyAlbum || p == Plataforma::SpotifyPlaylist
}

/// What is handed to `yt-dlp` to download the link `url`: a YouTube search
/// for the song's name where the link needs one, the link itself otherwise.
/// `None` where a search is needed and no name was given.
pub open spec fn destino_descarga(url: Seq<char>, consulta: Option<Seq<char>>) -> Option<Seq<char>> {
    if necesita_busqueda(plataforma_de(url)) {
        match consulta {
            Some(q) => Some("ytsearch1:"@ + q),
            None => None,
        }
    } else {
        Some(url)
    }
}

/// A download of the link `url` takes in a whole playlist.
pub open spec fn descarga_de_lista(url: Seq<char>) -> bool {
    es_lista(url) || plataforma_de(url) == Plataforma::SpotifyAlbum || plataforma_de(url)
        == Plataforma::SpotifyPlaylist || plataforma_de(url) == Plataforma::YoutubeMusicPlaylist
}

/// Where a video download of a playlist goes: a folder per playlist, files
/// numbered by their place in it.
pub open spec fn plantilla_lista(carpeta: Seq<char>) -> Seq<char> {
    carpeta + "/%(playlist_title)s/%(playlist_index)s - %(title)s.%(ext)s"@
}

/// Where an MP3 download of a playlist goes: a folder per playlist, files
/// named by their place in it, their artist and their title.
pub open spec fn plantilla_lista_mp3(carpeta: Seq<char>) -> Seq<char> {
    carpeta + "/%(playlist_title)s/%(playlist_index)s - %(artist)s - %(title)s.%(ext)s"@
}

/// Where a single song goes: `Artist - Title`.
pub open spec fn plantilla_artista(carpeta: Seq<char>) -> Seq<char> {
    carpeta + "/%(artist)s - %(title)s.%(ext)s"@
}

/// Where a single video goes: its title.
pub open spec fn plantilla_titulo(carpeta: Seq<char>) -> Seq<char> {
    carpeta + "/%(title)s.%(ext)s"@
}

/// The flags that keep a playlist download going past a failing item.
pub open spec fn banderas_lista() -> Seq<Seq<char>> {
    seq!["--yes-playlist"@, "--ignore-errors"@, "--no-abort-on-error"@]
}

/// The pause and retry flags that every download carries.
pub open spec fn banderas_reintento() -> Seq<Seq<char>> {
    seq!["--sleep-interval"@, "3"@, "--retries"@, "10"@, "--fragment-retries"@, "10"@]
}

/// The flags that turn the artist field into a comma-separated list.
pub open spec fn banderas_artistas() -> Seq<Seq<char>> {
    seq![
        "--replace-in-metadata"@,
        "artist"@,
        " - "@,
        ", "@,
        "--replace-in-metadata"@,
        "artist"@,
        " & "@,
        ", "@,
    ]
}

/// The flags that extract the audio as 320 kbps MP3 with its cover and tags.
pub open spec fn banderas_mp3() -> Seq<Seq<char>> {
    seq![
        "--extract-audio"@,
        "--audio-format"@,
        "mp3"@,
        "--audio-quality"@,
        "320K"@,
        "--embed-thumbnail"@,
        "--embed-metadata"@,
    ]
}

/// The arguments of format `playlist_mp3`: a whole playlist as tagged MP3.
pub open spec fn args_lista_mp3(carpeta: Seq<char>, destino: Seq<char>) -> Seq<Seq<char>> {
    banderas_lista() + banderas_mp3() + seq![
        "--parse-metadata"@,
        "playlist_index:%(track_number)s"@,
        "--parse-metadata"@,
        "title:%(meta_title)s"@,
        "--parse-metadata"@,
        "uploader:%(artist)s"@,
    ] + banderas_artistas() + banderas_reintento() + seq!["-o"@, plantilla_lista_mp3(carpeta), destino]
}

/// The arguments of the MP3 formats (`audio_mp3`, `audio_mp3_spotify`,
/// `audio_mp3_high`): a playlist when `de_lista`, with the audio quality set
/// once more at the end for `audio_mp3_high`.
pub open spec fn args_audio(alta: bool, de_lista: bool, carpeta: Seq<char>, destino: Seq<char>) -> Seq<
    Seq<char>,
> {
    (if de_lista {
        banderas_lista()
    } else {
        seq![]
    }) + seq!["-f"@, "bestaudio"@] + banderas_mp3() + (if de_lista {
        seq![
            "--parse-metadata"@,
            "playlist_index:%(track_number)s"@,
            "--parse-metadata"@,
            "uploader:%(artist)s"@,
        ] + banderas_artistas()
    } else {
        seq!["--parse-metadata"@, "artist:%(artist)s"@]
    }) + seq!["--parse-metadata"@, "title:%(title)s"@] + banderas_reintento() + seq![
        "-o"@,
        if de_lista {
            plantilla_lista_mp3(carpeta)
        } else {
            plantilla_artista(carpeta)
        },
    ] + (if alta {
        seq!["--audio-quality"@, "320K"@]
    } else {
        seq![]
    }) + seq![destino]
}

/// The `yt-dlp` format selector of each single-video format.
pub open spec fn selector_video(format_id: Seq<char>) -> Option<Seq<char>> {
    if format_id == "video_2160p"@ {
        Some("bestvideo[height<=2160][fps<=60][vcodec^=avc]+bestaudio[ext=m4a]/best[ext=mp4]"@)
    } else if format_id == "video_1440p"@ {
        Some("bestvideo[height<=1440][fps<=60][vcodec^=avc]+bestaudio[ext=m4a]/best[ext=mp4]"@)
    } else if format_id == "video_1080p_60fps"@ {
        Some("bestvideo[height<=1080][fps<=60][vcodec^=avc]+bestaudio[ext=m4a]/best[ext=mp4]"@)
    } else if format_id == "video_1080p"@ {
        Some("bestvideo[height<=1080][fps<=30][vcodec^=avc]+bestaudio[ext=m4a]/best[ext=mp4]"@)
    } else if format_id == "video_720p_60fps"@ {
        Some("bestvideo[height<=720][fps<=60][vcodec^=avc]+bestaudio[ext=m4a]/best[ext=mp4]"@)
    } else if format_id == "video_720p"@ {
        Some("bestvideo[height<=720][fps<=30][vcodec^=avc]+bestaudio[ext=m4a]/best[ext=mp4]"@)
    } else if format_id == "video_480p"@ {
        Some("bestvideo[height<=480][vcodec^=avc]+bestaudio[ext=m4a]/best[ext=mp4]"@)
    } else if format_id == "video_360p"@ {
        Some("bestvideo[height<=360][vcodec^=avc]+bestaudio[ext=m4a]/best[ext=mp4]"@)
    } else {
        None
    }
}

/// The arguments of a single-video format with selector `selector`.
pub open spec fn args_video(selector: Seq<char>, carpeta: Seq<char>, destino: Seq<char>) -> Seq<
    Seq<char>,
> {
    seq!["-f"@, selector, "--merge-output-format"@, "mp4"@] + banderas_reintento() + seq![
        "-o"@,
        plantilla_titulo(carpeta),
        destino,
    ]
}

/// The arguments of format `playlist`: a whole playlist as 1080p video.
pub open spec fn args_lista_video(carpeta: Seq<char>, destino: Seq<char>) -> Seq<Seq<char>> {
    banderas_lista() + seq![
        "-f"@,
        "bestvideo[height<=1080][fps<=60][vcodec^=avc]+bestaudio[ext=m4a]/best[ext=mp4]"@,
        "--merge-output-format"@,
        "mp4"@,
    ] + banderas_reintento() + seq!["-o"@, plantilla_lista(carpeta), destino]
}

/// The MP3 formats of a single song (or of each song of a playlist link).
pub open spec fn es_formato_audio(format_id: Seq<char>) -> bool {
    format_id == "audio_mp3"@ || format_id == "audio_mp3_spotify"@ || format_id
        == "audio_mp3_high"@
}

/// The `yt-dlp` arguments that download `destino` in format `format_id` into
/// `carpeta`, for the link `url`; `None` for a format that is not offered.
pub open spec fn args_descarga(
    url: Seq<char>,
    format_id: Seq<char>,
    carpeta: Seq<char>,
    destino: Seq<char>,
) -> Option<Seq<Seq<char>>> {
    if format_id == "playlist_mp3"@ {
        Some(args_lista_mp3(carpeta, destino))
    } else if es_formato_audio(format_id) {
        Some(
            args_audio(format_id == "audio_mp3_high"@, descarga_de_lista(url), carpeta, destino),
        )
    } else if format_id == "playlist"@ {
        Some(args_lista_video(carpeta, destino))
    } else {
        match selector_video(format_id) {
            Some(sel) => Some(args_video(sel, carpeta, destino)),
            None => None,
        }
    }
}

/// Appends `s` to `v`.
fn agregar(v: &mut Vec<String>, s: &str)
    ensures
        vistas_textos(final(v)@) == vistas_textos(old(v)@).push(s@),
{
    v.push(s.to_owned());
    assert(vistas_textos(v@) =~= vistas_textos(old(v)@).push(s@));
}

/// Appends the texts of `ss` to `v`, in order.
fn agregar_todos(v: &mut Vec<String>, ss: &[&str])
    ensures
        vistas_textos(final(v)@) == vistas_textos(old(v)@) + ss@.map_values(|s: &str| s@),
{
    let ghost inicio = vistas_textos(v@);
    let mut i: usize = 0;
    while i < ss.len()
        invariant
            i <= ss.len(),
            vistas_textos(v@) == inicio + ss@.map_values(|s: &str| s@).take(i as int),
        decreases ss.len() - i,
    {
        agregar(v, ss[i]);
        assert(ss@.map_values(|s: &str| s@).take(i + 1) =~= ss@.map_values(|s: &str| s@).take(
            i as int,
        ).push(ss@[i as int]@));
        i = i + 1;
    }
    assert(ss@.map_values(|s: &str| s@).take(ss.len() as int) =~= ss@.map_values(|s: &str| s@));
}

/// Appends the playlist flags to `v`.
fn poner_banderas_lista(v: &mut Vec<String>)
    ensures
        vistas_textos(final(v)@) == vistas_textos(old(v)@) + banderas_lista(),
{
    let ss: [&str; 3] = ["--yes-playlist", "--ignore-errors", "--no-abort-on-error"];
    agregar_todos(v, &ss);
    assert(ss@.map_values(|s: &str| s@) =~= banderas_lista());
}

/// Appends the pause and retry flags to `v`.
fn poner_reintento(v: &mut Vec<String>)
    ensures
        vistas_textos(final(v)@) == vistas_textos(old(v)@) + banderas_reintento(),
{
    let ss: [&str; 6] = ["--sleep-interval", "3", "--retries", "10", "--fragment-retries", "10"];
    agregar_todos(v, &ss);
    assert(ss@.map_values(|s: &str| s@) =~= banderas_reintento());
}

/// Appends the artist-list flags to `v`.
fn poner_artistas(v: &mut Vec<String>)
    ensures
        vistas_textos(final(v)@) == vistas_textos(old(v)@) + banderas_artistas(),
{
    let ss: [&str; 8] = [
        "--replace-in-metadata",
        "artist",
        " - ",
        ", ",
        "--replace-in-metadata",
        "artist",
        " & ",
        ", ",
    ];
    agregar_todos(v, &ss);
    assert(ss@.map_values(|s: &str| s@) =~= banderas_artistas());
}

/// Appends the MP3 extraction flags to `v`.
fn poner_mp3(v: &mut Vec<String>)
    ensures
        vistas_textos(final(v)@) == vistas_textos(old(v)@) + banderas_mp3(),
{
    let ss: [&str; 7] = [
        "--extract-audio",
        "--audio-format",
        "mp3",
        "--audio-quality",
        "320K",
        "--embed-thumbnail",
        "--embed-metadata",
    ];
    agregar_todos(v, &ss);
    assert(ss@.map_values(|s: &str| s@) =~= banderas_mp3());
}

/// Appends `-o`, the output template `plantilla` and the target `destino`.
fn poner_salida(v: &mut Vec<String>, plantilla: String, destino: &str)
    ensures
        vistas_textos(final(v)@) == vistas_textos(old(v)@) + seq!["-o"@, plantilla@, destino@],
{
    let ghost antes = vistas_textos(v@);
    agregar(v, "-o");
    agregar(v, plantilla.as_str());
    agregar(v, destino);
    assert(vistas_textos(v@) =~= antes + seq!["-o"@, plantilla@, destino@]);
}

/// The single-video format selector of `format_id`, if it is one.
fn selector(format_id: &str) -> (r: Option<&'static str>)
    ensures
        match r {
            Some(s) => selector_video(format_id@) == Some(s@),
            None => selector_video(format_id@) is None,
        },
{
    if iguales(format_id, "video_2160p") {
        Some("bestvideo[height<=2160][fps<=60][vcodec^=avc]+bestaudio[ext=m4a]/best[ext=mp4]")
    } else if iguales(format_id, "video_1440p") {
        Some("bestvideo[height<=1440][fps<=60][vcodec^=avc]+bestaudio[ext=m4a]/best[ext=mp4]")
    } else if iguales(format_id, "video_1080p_60fps") {
        Some("bestvideo[height<=1080][fps<=60][vcodec^=avc]+bestaudio[ext=m4a]/best[ext=mp4]")
    } else if iguales(format_id, "video_1080p") {
        Some("bestvideo[height<=1080][fps<=30][vcodec^=avc]+bestaudio[ext=m4a]/best[ext=mp4]")
    } else if iguales(format_id, "video_720p_60fps") {
        Some("bestvideo[height<=720][fps<=60][vcodec^=avc]+bestaudio[ext=m4a]/best[ext=mp4]")
    } else if iguales(format_id, "video_720p") {
        Some("bestvideo[height<=720][fps<=30][vcodec^=avc]+bestaudio[ext=m4a]/best[ext=mp4]")
    } else if iguales(format_id, "video_480p") {
        Some("bestvideo[height<=480][vcodec^=avc]+bestaudio[ext=m4a]/best[ext=mp4]")
    } else if iguales(format_id, "video_360p") {
        Some("bestvideo[height<=360][vcodec^=avc]+bestaudio[ext=m4a]/best[ext=mp4]")
    } else {
        None
    }
}

/// Whether a download of the link `url` takes in a whole playlist.
pub fn es_descarga_de_lista(url: &str) -> (r: bool)
    ensures
        r == descarga_de_lista(url@),
{
    let p = clasificar_plataforma(url);
    es_playlist(url) || p == Plataforma::SpotifyAlbum || p == Plataforma::SpotifyPlaylist || p
        == Plataforma::YoutubeMusicPlaylist
}

/// What is handed to `yt-dlp` to download the link `url`: a YouTube search
/// for `spotify_query` where the link is a Spotify album, playlist or other
/// non-track link, the link itself otherwise; an error where a search is
/// needed and no name was given.
pub fn url_de_descarga(url: &str, spotify_query: Option<String>) -> (r: Result<String, String>)
    ensures
        match destino_descarga(url@, crate::modelo::vista_opcional(spotify_query)) {
            Some(d) => r matches Ok(s) && s@ == d,
            None => r matches Err(e) && e@ == "Se necesita el nombre de la cancion para Spotify"@,
        },
{
    let p = clasificar_plataforma(url);
    if p == Plataforma::Spotify || p == Plataforma::SpotifyAlbum || p == Plataforma::SpotifyPlaylist {
        match spotify_query {
            Some(q) => Ok(con_prefijo("ytsearch1:", q.as_str())),
            None => Err("Se necesita el nombre de la cancion para Spotify".to_owned()),
        }
    } else {
        Ok(url.to_owned())
    }
}

/// The `yt-dlp` arguments that download `destino` (what `url_de_descarga`
/// gave for the link `url`) in the format `format_id` into the folder
/// `carpeta`; the error `Formato no valido` for a format that is not offered.
pub fn argumentos_descarga(url: &str, format_id: &str, carpeta: &str, destino: &str) -> (r: Result<
    Vec<String>,
    String,
>)
    ensures
        match args_descarga(url@, format_id@, carpeta@, destino@) {
            Some(a) => r matches Ok(v) && vistas_textos(v@) == a,
            None => r matches Err(e) && e@ == "Formato no valido"@,
        },
{
    let mut v: Vec<String> = Vec::new();
    assert(vistas_textos(v@) =~= Seq::<Seq<char>>::empty());
    if iguales(format_id, "playlist_mp3") {
        poner_banderas_lista(&mut v);
        poner_mp3(&mut v);
        let ss: [&str; 6] = [
            "--parse-metadata",
            "playlist_index:%(track_number)s",
            "--parse-metadata",
            "title:%(meta_title)s",
            "--parse-metadata",
            "uploader:%(artist)s",
        ];
        agregar_todos(&mut v, &ss);
        poner_artistas(&mut v);
        poner_reintento(&mut v);
        let plantilla = carpeta.to_owned().concat(
            "/%(playlist_title)s/%(playlist_index)s - %(artist)s - %(title)s.%(ext)s",
        );
        poner_salida(&mut v, plantilla, destino);
        assert(vistas_textos(v@) =~= args_lista_mp3(carpeta@, destino@));
        Ok(v)
    } else if iguales(format_id, "audio_mp3") || iguales(format_id, "audio_mp3_spotify") || iguales(
        format_id,
        "audio_mp3_high",
    ) {
        let alta = iguales(format_id, "audio_mp3_high");
        let de_lista = es_descarga_de_lista(url);
        if de_lista {
            poner_banderas_lista(&mut v);
        }
        let ghost a0 = vistas_textos(v@);
        agregar(&mut v, "-f");
        agregar(&mut v, "bestaudio");
        poner_mp3(&mut v);
        let ghost a1 = vistas_textos(v@);
        if de_lista {
            let ss: [&str; 4] = [
                "--parse-metadata",
                "playlist_index:%(track_number)s",
                "--parse-metadata",
                "uploader:%(artist)s",
            ];
            agregar_todos(&mut v, &ss);
            poner_artistas(&mut v);
        } else {
            agregar(&mut v, "--parse-metadata");
            agregar(&mut v, "artist:%(artist)s");
        }
        let ghost a2 = vistas_textos(v@);
        agregar(&mut v, "--parse-metadata");
        agregar(&mut v, "title:%(title)s");
        poner_reintento(&mut v);
        let plantilla = if de_lista {
            carpeta.to_owned().concat("/%(playlist_title)s/%(playlist_index)s - %(artist)s - %(title)s.%(ext)s")
        } else {
            carpeta.to_owned().concat("/%(artist)s - %(title)s.%(ext)s")
        };
        agregar(&mut v, "-o");
        agregar(&mut v, plantilla.as_str());
        let ghost a3 = vistas_textos(v@);
        if alta {
            agregar(&mut v, "--audio-quality");
            agregar(&mut v, "320K");
        }
        let ghost a4 = vistas_textos(v@);
        agregar(&mut v, destino);
        proof {
            let pre = if de_lista {
                banderas_lista()
            } else {
                seq![]
            };
            let medio = if de_lista {
                seq![
                    "--parse-metadata"@,
                    "playlist_index:%(track_number)s"@,
                    "--parse-metadata"@,
                    "uploader:%(artist)s"@,
                ] + banderas_artistas()
            } else {
                seq!["--parse-metadata"@, "artist:%(artist)s"@]
            };
            let sal = if de_lista {
                plantilla_lista_mp3(carpeta@)
            } else {
                plantilla_artista(carpeta@)
            };
            let fin = if alta {
                seq!["--audio-quality"@, "320K"@]
            } else {
                seq![]
            };
            assert(a0 =~= pre);
            assert(a1 =~= pre + seq!["-f"@, "bestaudio"@] + banderas_mp3());
            assert(a2 =~= a1 + medio);
            assert(a3 =~= a2 + seq!["--parse-metadata"@, "title:%(title)s"@] + banderas_reintento()
                + seq!["-o"@, sal]);
            assert(a4 =~= a3 + fin);
            assert(vistas_textos(v@) =~= args_audio(alta, de_lista, carpeta@, destino@));
        }
        Ok(v)
    } else if iguales(format_id, "playlist") {
        poner_banderas_lista(&mut v);
        let ss: [&str; 4] = [
            "-f",
            "bestvideo[height<=1080][fps<=60][vcodec^=avc]+bestaudio[ext=m4a]/best[ext=mp4]",
            "--merge-output-format",
            "mp4",
        ];
        agregar_todos(&mut v, &ss);
        poner_reintento(&mut v);
        let plantilla = carpeta.to_owned().concat(
            "/%(playlist_title)s/%(playlist_index)s - %(title)s.%(ext)s",
        );
        poner_salida(&mut v, plantilla, destino);
        assert(vistas_textos(v@) =~= args_lista_video(carpeta@, destino@));
        Ok(v)
    } else {
        match selector(format_id) {
            Some(sel) => {
                agregar(&mut v, "-f");
                agregar(&mut v, sel);
                agregar(&mut v, "--merge-output-format");
                agregar(&mut v, "mp4");
                poner_reintento(&mut v);
                let plantilla = carpeta.to_owned().concat("/%(title)s.%(ext)s");
                poner_salida(&mut v, plantilla, destino);
                assert(vistas_textos(v@) =~= args_video(sel@, carpeta@, destino@));
                Ok(v)
            },
            None => Err("Formato no valido".to_owned()),
        }
    }
}

/// The link handed to `yt-dlp` to show the link `url`: the link itself for
/// a YouTube playlist (music or not), without its `&list=` tail otherwise.
pub open spec fn enlace_a_mostrar(url: Seq<char>) -> Seq<char> {
    if plataforma_de(url) == Plataforma::YoutubePlaylist || plataforma_de(url)
        == Plataforma::YoutubeMusicPlaylist {
        url
    } else {
        sin_lista(url)
    }
}

/// The `yt-dlp` arguments that describe the link `enlace` as JSON: only the
/// first item of a playlist, read flat.
pub open spec fn args_consulta(enlace: Seq<char>, de_lista: bool) -> Seq<Seq<char>> {
    if de_lista {
        seq!["-j"@, "--flat-playlist"@, "--playlist-items"@, "1"@, enlace]
    } else {
        seq!["-j"@, enlace]
    }
}

/// What showing a link takes.
pub enum PlanInfo {
    /// A Spotify track: find its name on Spotify, then search YouTube for it.
    BuscarEnSpotify,
    /// A link that cannot be shown, with the error answered.
    Rechazar(String),
    /// Ask `yt-dlp` with these arguments; the link names a playlist when
    /// `is_playlist`.
    ConsultarYtDlp { argumentos: Vec<String>, is_playlist: bool },
}

/// What showing the link `url` takes: a Spotify track is searched for, a
/// Spotify album or playlist is refused with `SPOTIFY_PLAYLIST_NOT_SUPPORTED`,
/// and any other link is described by `yt-dlp`.
pub open spec fn plan_correcto(url: Seq<char>, plan: PlanInfo) -> bool {
    if plataforma_de(url) == Plataforma::SpotifyTrack {
        plan is BuscarEnSpotify
    } else if plataforma_de(url) == Plataforma::SpotifyAlbum || plataforma_de(url)
        == Plataforma::SpotifyPlaylist {
        plan matches PlanInfo::Rechazar(e) && e@ == "SPOTIFY_PLAYLIST_NOT_SUPPORTED"@
    } else {
        plan matches PlanInfo::ConsultarYtDlp { argumentos, is_playlist } && is_playlist
            == es_lista(url) && vistas_textos(argumentos@) == args_consulta(
            enlace_a_mostrar(url),
            es_lista(url),
        )
    }
}

/// What showing the link `url` takes.
pub fn planear_info(url: &str) -> (r: PlanInfo)
    ensures
        plan_correcto(url@, r),
{
    let p = clasificar_plataforma(url);
    if p == Plataforma::SpotifyTrack {
        return PlanInfo::BuscarEnSpotify;
    }
    if p == Plataforma::SpotifyAlbum || p == Plataforma::SpotifyPlaylist {
        return PlanInfo::Rechazar("SPOTIFY_PLAYLIST_NOT_SUPPORTED".to_owned());
    }
    let enlace = if p == Plataforma::YoutubePlaylist || p == Plataforma::YoutubeMusicPlaylist {
        url.to_owned()
    } else {
        limpiar_url_playlist(url)
    };
    let is_playlist = es_playlist(url);
    let mut v: Vec<String> = Vec::new();
    assert(vistas_textos(v@) =~= Seq::<Seq<char>>::empty());
    agregar(&mut v, "-j");
    if is_playlist {
        agregar(&mut v, "--flat-playlist");
        agregar(&mut v, "--playlist-items");
        agregar(&mut v, "1");
    }
    agregar(&mut v, enlace.as_str());
    assert(vistas_textos(v@) =~= args_consulta(enlace_a_mostrar(url@), es_lista(url@)));
    PlanInfo::ConsultarYtDlp { argumentos: v, is_playlist }
}

/// The `yt-dlp` arguments that search YouTube for a song of under ten
/// minutes named `query`, answering with its JSON.
pub open spec fn args_busqueda(query: Seq<char>) -> Seq<Seq<char>> {
    seq![
        "-j"@,
        "--default-search"@,
        "ytsearch"@,
        "--match-filter"@,
        "duration < 600"@,
        "ytsearch1:"@ + query,
    ]
}

/// The `yt-dlp` arguments that search YouTube for the song `query`.
pub fn argumentos_busqueda(query: &str) -> (r: Vec<String>)
    ensures
        vistas_textos(r@) == args_busqueda(query@),
{
    let mut v: Vec<String> = Vec::new();
    assert(vistas_textos(v@) =~= Seq::<Seq<char>>::empty());
    let ss: [&str; 5] = ["-j", "--default-search", "ytsearch", "--match-filter", "duration < 600"];
    agregar_todos(&mut v, &ss);
    let objetivo = con_prefijo("ytsearch1:", query);
    agregar(&mut v, objetivo.as_str());
    assert(vistas_textos(v@) =~= args_busqueda(query@));
    v
}

/// What a download answers once `yt-dlp` has run: `Descarga completada`, or
/// `yt-dlp`'s error output where it failed.
pub fn resultado_descarga(exito: bool, stderr: &str) -> (r: Result<String, String>)
    ensures
        exito ==> (r matches Ok(m) && m@ == "Descarga completada"@),
        !exito ==> (r matches Err(e) && e@ == "Error en yt-dlp: "@ + stderr@),
{
    if exito {
        Ok("Descarga completada".to_owned())
    } else {
        Err(con_prefijo("Error en yt-dlp: ", stderr))
    }
}

} // verus!
