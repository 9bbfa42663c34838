//! Properties of the downloader that span several of its functions.

use vstd::prelude::*;
use crate::descarga::{
    args_busqueda, destino_descarga, necesita_busqueda,
    banderas_artistas, banderas_lista, banderas_mp3, banderas_reintento,
    args_descarga, descarga_de_lista, es_formato_audio, plantilla_artista, plantilla_lista, plantilla_lista_mp3,
    plantilla_titulo, selector_video,
};
use crate::modelo::{formato, formatos_de_spotify, formatos_ofrecidos, FormatoVista};
use crate::duracion::valor_cifra;
use crate::plataforma::{es_lista, id_spotify, inicio_id, plataforma_de, sin_lista, Plataforma};
use crate::texto::{
    aparece_en, car_antes_de, car_desde, contiene, lema_car_antes_de, lema_car_desde,
    lema_primera_posicion, primera_posicion,
};

verus! {

/// Every format offered for a YouTube link can be downloaded: the download
/// never answers `Formato no valido` for it, whatever the link.
pub proof fn ley_formatos_ofrecidos_descargables(
    is_playlist: bool,
    i: int,
    url: Seq<char>,
    carpeta: Seq<char>,
    destino: Seq<char>,
)
    requires
        0 <= i < formatos_ofrecidos(is_playlist).len(),
    ensures
        args_descarga(url, formatos_ofrecidos(is_playlist)[i].id, carpeta, destino) is Some,
{
}

/// Every format offered for a song found from Spotify can be downloaded.
pub proof fn ley_formatos_spotify_descargables(
    i: int,
    url: Seq<char>,
    carpeta: Seq<char>,
    destino: Seq<char>,
)
    requires
        0 <= i < formatos_de_spotify().len(),
    ensures
        args_descarga(url, formatos_de_spotify()[i].id, carpeta, destino) is Some,
{
}

/// Where a download in format `format_id` of the link `url` is written: a
/// folder per playlist with files `Index - Artist - Title` for the MP3
/// playlist format and for MP3 from a playlist link, a folder per playlist
/// with files `Index - Title` for the video playlist format, `Artist - Title`
/// for a single song, the title for a single video.
pub open spec fn plantilla_de(url: Seq<char>, format_id: Seq<char>, carpeta: Seq<char>) -> Seq<char> {
    if format_id == "playlist_mp3"@ {
        plantilla_lista_mp3(carpeta)
    } else if es_formato_audio(format_id) {
        if descarga_de_lista(url) {
            plantilla_lista_mp3(carpeta)
        } else {
            plantilla_artista(carpeta)
        }
    } else if format_id == "playlist"@ {
        plantilla_lista(carpeta)
    } else {
        plantilla_titulo(carpeta)
    }
}

/// Every download names its target last and writes inside the folder it is
/// given: its arguments hold `-o` followed by the output template of
/// `plantilla_de`, which starts with the folder and a `/`.
pub proof fn ley_descarga_en_carpeta(
    url: Seq<char>,
    format_id: Seq<char>,
    carpeta: Seq<char>,
    destino: Seq<char>,
)
    requires
        args_descarga(url, format_id, carpeta, destino) is Some,
    ensures
        ({
            let a = args_descarga(url, format_id, carpeta, destino)->0;
            &&& a.len() > 0
            &&& a.last() == destino
            &&& exists|k: int|
                0 <= k && k + 1 < a.len() && #[trigger] a[k] == "-o"@ && a[k + 1] == plantilla_de(
                    url,
                    format_id,
                    carpeta,
                )
        }),
        plantilla_de(url, format_id, carpeta).take(carpeta.len() + 1int) == carpeta.push('/'),
{
    reveal_strlit("/%(playlist_title)s/%(playlist_index)s - %(title)s.%(ext)s");
    reveal_strlit("/%(playlist_title)s/%(playlist_index)s - %(artist)s - %(title)s.%(ext)s");
    reveal_strlit("/%(artist)s - %(title)s.%(ext)s");
    reveal_strlit("/%(title)s.%(ext)s");
    let t = plantilla_de(url, format_id, carpeta);
    assert(t.take(carpeta.len() + 1int) =~= carpeta.push('/'));
    let a = args_descarga(url, format_id, carpeta, destino)->0;
    let n = a.len();
    if format_id == "playlist_mp3"@ {
        let x = banderas_lista() + banderas_mp3() + seq![
            "--parse-metadata"@,
            "playlist_index:%(track_number)s"@,
            "--parse-metadata"@,
            "title:%(meta_title)s"@,
            "--parse-metadata"@,
            "uploader:%(artist)s"@,
        ] + banderas_artistas() + banderas_reintento();
        let s3 = seq!["-o"@, plantilla_lista_mp3(carpeta), destino];
        assert(a == x + s3);
        assert((x + s3)[x.len() as int] == s3[0]);
        assert((x + s3)[x.len() + 1int] == s3[1]);
        assert(a[n - 3] == "-o"@ && a[n - 2] == t);
    } else if es_formato_audio(format_id) {
        let de_lista = descarga_de_lista(url);
        let alta = format_id == "audio_mp3_high"@;
        let pre = if de_lista {
            banderas_lista()
        } else {
            seq![]
        };
        let medio = if de_lista {
            seq![
                "--parse-metadata"@,
                "playlist_index:%(track_number)s"@,
                "--parse-metadata"@,
                "uploader:%(artist)s"@,
            ] + banderas_artistas()
        } else {
            seq!["--parse-metadata"@, "artist:%(artist)s"@]
        };
        let sal = if de_lista {
            plantilla_lista_mp3(carpeta)
        } else {
            plantilla_artista(carpeta)
        };
        let fin: Seq<Seq<char>> = if alta {
            seq!["--audio-quality"@, "320K"@]
        } else {
            seq![]
        };
        let x = pre + seq!["-f"@, "bestaudio"@] + banderas_mp3() + medio + seq![
            "--parse-metadata"@,
            "title:%(title)s"@,
        ] + banderas_reintento();
        let y = x + seq!["-o"@, sal] + fin;
        assert(a == y + seq![destino]);
        assert(y[x.len() as int] == "-o"@);
        assert(y[x.len() + 1int] == sal);
        assert(a[x.len() as int] == "-o"@);
        assert(a[x.len() + 1int] == t);
    } else if format_id == "playlist"@ {
        assert(a[n - 3] == "-o"@ && a[n - 2] == t);
    } else {
        let sel = selector_video(format_id)->0;
        assert(a =~= seq!["-f"@, sel, "--merge-output-format"@, "mp4"@] + crate::descarga::banderas_reintento() + seq![
            "-o"@,
            plantilla_titulo(carpeta),
            destino,
        ]);
        assert(a[n - 3] == "-o"@ && a[n - 2] == t);
    }
}

/// Cleaning a link removes every `&list=` from it, so cleaning it again
/// changes nothing.
pub proof fn ley_limpieza_idempotente(url: Seq<char>)
    ensures
        !contiene(sin_lista(url), "&list="@),
        sin_lista(sin_lista(url)) == sin_lista(url),
{
    let p = "&list="@;
    reveal_strlit("&list=");
    lema_primera_posicion(url, p);
    let t = sin_lista(url);
    if primera_posicion(url, p) != -1 {
        let i = primera_posicion(url, p);
        assert forall|j: int| !aparece_en(t, p, j) by {
            if aparece_en(t, p, j) {
                assert(t.len() == i);
                assert(j < i);
                assert(url.subrange(j, j + p.len()) =~= t.subrange(j, j + p.len()));
                assert(aparece_en(url, p, j));
                assert(false);
            }
        }
    }
    lema_primera_posicion(t, p);
}

/// The identifier taken from a Spotify link holds no `/` and no `?`.
pub proof fn ley_id_spotify_sin_separadores(url: Seq<char>)
    ensures
        forall|i: int|
            0 <= i < id_spotify(url).len() ==> id_spotify(url)[i] != '/' && id_spotify(url)[i]
                != '?',
{
    lema_car_antes_de(url, '/', url.len() as int);
    lema_car_desde(url, '?', inicio_id(url));
}

/// A link recognised as a YouTube playlist is shown, and downloaded, as a
/// playlist.
pub proof fn ley_lista_youtube(url: Seq<char>)
    requires
        plataforma_de(url) == Plataforma::YoutubePlaylist,
    ensures
        es_lista(url),
        descarga_de_lista(url),
{
}

/// A Spotify link downloaded by a song's name fetches what the manual search
/// for that name showed: the target of the download is the search target of
/// `argumentos_busqueda`.
pub proof fn ley_busqueda_coherente(url: Seq<char>, q: Seq<char>)
    requires
        necesita_busqueda(plataforma_de(url)),
    ensures
        destino_descarga(url, Some(q)) == Some(args_busqueda(q).last()),
{
}

/// An MP3 download of a Spotify album or playlist link, of a YouTube Music
/// playlist link, or of a link holding `list=` without `&index=` (or holding
/// `playlist?list=`) takes in the whole playlist: its arguments start with
/// `--yes-playlist`, `--ignore-errors`, `--no-abort-on-error`, and its files
/// go to a folder per playlist, named `Index - Artist - Title`.
pub proof fn ley_mp3_de_lista(
    url: Seq<char>,
    format_id: Seq<char>,
    carpeta: Seq<char>,
    destino: Seq<char>,
)
    requires
        format_id == "audio_mp3"@ || format_id == "audio_mp3_spotify"@ || format_id
            == "audio_mp3_high"@ || format_id == "playlist_mp3"@,
        (contiene(url, "spotify.com"@) && (contiene(url, "/album/"@) || contiene(
            url,
            "/playlist/"@,
        ))) || (!contiene(url, "spotify.com"@) && contiene(url, "music.youtube.com"@) && (
        contiene(url, "playlist?list="@) || contiene(url, "&list="@))) || (contiene(url, "list="@)
            && !contiene(url, "&index="@)) || contiene(url, "playlist?list="@),
    ensures
        args_descarga(url, format_id, carpeta, destino) matches Some(a) && a.len() > 3 && a[0]
            == "--yes-playlist"@ && a[1] == "--ignore-errors"@ && a[2] == "--no-abort-on-error"@
            && a.contains(
            carpeta + "/%(playlist_title)s/%(playlist_index)s - %(artist)s - %(title)s.%(ext)s"@,
        ),
{
    assert(descarga_de_lista(url));
    ley_descarga_en_carpeta(url, format_id, carpeta, destino);
    let a = args_descarga(url, format_id, carpeta, destino)->0;
    let t = plantilla_lista_mp3(carpeta);
    assert(plantilla_de(url, format_id, carpeta) == t);
    let k = choose|k: int|
        0 <= k && k + 1 < a.len() && #[trigger] a[k] == "-o"@ && a[k + 1] == plantilla_de(
            url,
            format_id,
            carpeta,
        );
    assert(a[k + 1] == t);
    if format_id == "playlist_mp3"@ {
        let x = banderas_mp3() + seq![
            "--parse-metadata"@,
            "playlist_index:%(track_number)s"@,
            "--parse-metadata"@,
            "title:%(meta_title)s"@,
            "--parse-metadata"@,
            "uploader:%(artist)s"@,
        ] + banderas_artistas() + banderas_reintento() + seq!["-o"@, t, destino];
        assert(a =~= banderas_lista() + x);
    } else {
        let alta = format_id == "audio_mp3_high"@;
        let fin: Seq<Seq<char>> = if alta {
            seq!["--audio-quality"@, "320K"@]
        } else {
            seq![]
        };
        let x = seq!["-f"@, "bestaudio"@] + banderas_mp3() + (seq![
            "--parse-metadata"@,
            "playlist_index:%(track_number)s"@,
            "--parse-metadata"@,
            "uploader:%(artist)s"@,
        ] + banderas_artistas()) + seq!["--parse-metadata"@, "title:%(title)s"@]
            + banderas_reintento() + seq!["-o"@, t] + fin + seq![destino];
        assert(a =~= banderas_lista() + x);
    }
}

/// Every link is recognised by the site it names: a `spotify.com` link is one
/// of the Spotify kinds, any other link naming `youtube.com` (with any
/// subdomain) or `youtu.be` is one of the YouTube kinds, and only a link
/// naming none of them is unknown.
pub proof fn ley_plataformas_reconocidas(url: Seq<char>)
    ensures
        contiene(url, "spotify.com"@) ==> (plataforma_de(url) == Plataforma::SpotifyAlbum
            || plataforma_de(url) == Plataforma::SpotifyPlaylist || plataforma_de(url)
            == Plataforma::SpotifyTrack || plataforma_de(url) == Plataforma::Spotify),
        !contiene(url, "spotify.com"@) && (contiene(url, "youtube.com"@) || contiene(
            url,
            "youtu.be"@,
        )) ==> (plataforma_de(url) == Plataforma::Youtube || plataforma_de(url)
            == Plataforma::YoutubePlaylist || plataforma_de(url)
            == Plataforma::YoutubeMusicPlaylist),
        plataforma_de(url) == Plataforma::Desconocida ==> !contiene(url, "spotify.com"@)
            && !contiene(url, "youtube.com"@) && !contiene(url, "youtu.be"@),
{
}

/// What a download hands to `yt-dlp`: for a `spotify.com` link that is not
/// a track (album, playlist or other), the YouTube search `ytsearch1:` of the
/// name given, and an error without a name; for a Spotify track link, and
/// for every link that is not `spotify.com`, the link itself.
pub proof fn ley_destino_de_descarga(url: Seq<char>, q: Seq<char>, consulta: Option<Seq<char>>)
    ensures
        contiene(url, "spotify.com"@) && !contiene(url, "/track/"@) ==> destino_descarga(
            url,
            Some(q),
        ) == Some("ytsearch1:"@ + q) && destino_descarga(url, None) is None,
        contiene(url, "spotify.com"@) && contiene(url, "/track/"@) && !contiene(url, "/album/"@)
            && !contiene(url, "/playlist/"@) ==> destino_descarga(url, consulta) == Some(url),
        !contiene(url, "spotify.com"@) ==> destino_descarga(url, consulta) == Some(url),
{
}

/// Where the run of decimal digits that starts at `i` ends.
pub open spec fn fin_cifras(s: Seq<char>, i: int) -> int
    decreases s.len() - i,
{
    if 0 <= i < s.len() && 0 <= valor_cifra(s[i]) {
        fin_cifras(s, i + 1)
    } else {
        i
    }
}

/// The value of the run of decimal digits that ends just before `k` (0 where
/// there is none).
pub open spec fn valor_antes(s: Seq<char>, k: int) -> int
    decreases k,
{
    if 0 < k <= s.len() && 0 <= valor_cifra(s[k - 1]) {
        valor_antes(s, k - 1) * 10 + valor_cifra(s[k - 1])
    } else {
        0
    }
}

/// The value of the run of decimal digits that starts at `i`.
pub open spec fn valor_desde(s: Seq<char>, i: int) -> int {
    valor_antes(s, fin_cifras(s, i))
}

/// The height that a format's label names: the number after its first space
/// (`MP4 1080p ...`).
pub open spec fn altura_etiqueta(q: Seq<char>) -> int {
    valor_desde(q, car_desde(q, ' ', 0) + 1)
}

/// The frame rate that a format's label names: the number just before its
/// last `F` (`... 30 FPS`, `... 60FPS`), 0 where it names none.
pub open spec fn fps_etiqueta(q: Seq<char>) -> int {
    let f = car_antes_de(q, 'F', q.len() as int);
    if f < 0 {
        0
    } else if f > 0 && q[f - 1] == ' ' {
        valor_antes(q, f - 1)
    } else {
        valor_antes(q, f)
    }
}

/// The height limit of a `yt-dlp` selector: the number after its first `=`
/// (`bestvideo[height<=1080]...`).
pub open spec fn altura_selector(sel: Seq<char>) -> int {
    valor_desde(sel, car_desde(sel, '=', 0) + 1)
}

/// The frame-rate limit of a `yt-dlp` selector: the number after its second
/// `=` (`...[fps<=30]...`), 0 where no number follows it.
pub open spec fn fps_selector(sel: Seq<char>) -> int {
    let e = car_desde(sel, '=', 0);
    valor_desde(sel, car_desde(sel, '=', e + 1) + 1)
}

/// A format's label and what its id downloads agree.
pub open spec fn etiqueta_concuerda(f: FormatoVista) -> bool {
    match selector_video(f.id) {
        Some(sel) => altura_etiqueta(f.quality) == altura_selector(sel) && fps_etiqueta(f.quality)
            == fps_selector(sel),
        None => true,
    }
}

proof fn lema_ids_de_video()
    ensures
        "video_1440p"@ != "video_2160p"@,
        "video_1080p_60fps"@ != "video_2160p"@,
        "video_1080p_60fps"@ != "video_1440p"@,
        "video_1080p"@ != "video_2160p"@,
        "video_1080p"@ != "video_1440p"@,
        "video_1080p"@ != "video_1080p_60fps"@,
        "video_720p_60fps"@ != "video_2160p"@,
        "video_720p_60fps"@ != "video_1440p"@,
        "video_720p_60fps"@ != "video_1080p_60fps"@,
        "video_720p_60fps"@ != "video_1080p"@,
        "video_720p"@ != "video_2160p"@,
        "video_720p"@ != "video_1440p"@,
        "video_720p"@ != "video_1080p_60fps"@,
        "video_720p"@ != "video_1080p"@,
        "video_720p"@ != "video_720p_60fps"@,
        "video_480p"@ != "video_2160p"@,
        "video_480p"@ != "video_1440p"@,
        "video_480p"@ != "video_1080p_60fps"@,
        "video_480p"@ != "video_1080p"@,
        "video_480p"@ != "video_720p_60fps"@,
        "video_480p"@ != "video_720p"@,
        "video_360p"@ != "video_2160p"@,
        "video_360p"@ != "video_1440p"@,
        "video_360p"@ != "video_1080p_60fps"@,
        "video_360p"@ != "video_1080p"@,
        "video_360p"@ != "video_720p_60fps"@,
        "video_360p"@ != "video_720p"@,
        "video_360p"@ != "video_480p"@,
{
    reveal_strlit("video_2160p");
    reveal_strlit("video_1440p");
    reveal_strlit("video_1080p_60fps");
    reveal_strlit("video_1080p");
    reveal_strlit("video_720p_60fps");
    reveal_strlit("video_720p");
    reveal_strlit("video_480p");
    reveal_strlit("video_360p");
    assert("video_1440p"@[6] != "video_2160p"@[6]);
    assert("video_1080p_60fps"@.len() != "video_2160p"@.len());
    assert("video_1080p_60fps"@.len() != "video_1440p"@.len());
    assert("video_1080p"@[6] != "video_2160p"@[6]);
    assert("video_1080p"@[7] != "video_1440p"@[7]);
    assert("video_1080p"@.len() != "video_1080p_60fps"@.len());
    assert("video_720p_60fps"@.len() != "video_2160p"@.len());
    assert("video_720p_60fps"@.len() != "video_1440p"@.len());
    assert("video_720p_60fps"@.len() != "video_1080p_60fps"@.len());
    assert("video_720p_60fps"@.len() != "video_1080p"@.len());
    assert("video_720p"@.len() != "video_2160p"@.len());
    assert("video_720p"@.len() != "video_1440p"@.len());
    assert("video_720p"@.len() != "video_1080p_60fps"@.len());
    assert("video_720p"@.len() != "video_1080p"@.len());
    assert("video_720p"@.len() != "video_720p_60fps"@.len());
    assert("video_480p"@.len() != "video_2160p"@.len());
    assert("video_480p"@.len() != "video_1440p"@.len());
    assert("video_480p"@.len() != "video_1080p_60fps"@.len());
    assert("video_480p"@.len() != "video_1080p"@.len());
    assert("video_480p"@.len() != "video_720p_60fps"@.len());
    assert("video_480p"@[6] != "video_720p"@[6]);
    assert("video_360p"@.len() != "video_2160p"@.len());
    assert("video_360p"@.len() != "video_1440p"@.len());
    assert("video_360p"@.len() != "video_1080p_60fps"@.len());
    assert("video_360p"@.len() != "video_1080p"@.len());
    assert("video_360p"@.len() != "video_720p_60fps"@.len());
    assert("video_360p"@[6] != "video_720p"@[6]);
    assert("video_360p"@[6] != "video_480p"@[6]);
}

proof fn lema_etiqueta_2160p()
    ensures
        etiqueta_concuerda(formato("video_2160p"@, "MP4 2160p (4K) - Alta calidad 60FPS"@, "video"@)),
{
    lema_ids_de_video();
    reveal_strlit("video_2160p");
    reveal_strlit("MP4 2160p (4K) - Alta calidad 60FPS");
    reveal_strlit("bestvideo[height<=2160][fps<=60][vcodec^=avc]+bestaudio[ext=m4a]/best[ext=mp4]");
    reveal_with_fuel(car_desde, 40);
    reveal_with_fuel(car_antes_de, 30);
    reveal_with_fuel(fin_cifras, 8);
    reveal_with_fuel(valor_antes, 8);
    let q = "MP4 2160p (4K) - Alta calidad 60FPS"@;
    let sel = "bestvideo[height<=2160][fps<=60][vcodec^=avc]+bestaudio[ext=m4a]/best[ext=mp4]"@;
    assert(selector_video("video_2160p"@) == Some(sel));
    assert(q.len() == 35);
    assert(car_desde(q, ' ', 0) == 3);
    assert(fin_cifras(q, 4) == 8);
    assert(altura_etiqueta(q) == 2160);
    assert(car_antes_de(q, 'F', 35) == 32);
    assert(fps_etiqueta(q) == 60);
    assert(sel.len() == 78);
    assert(car_desde(sel, '=', 0) == 17);
    assert(altura_selector(sel) == 2160);
    assert(car_desde(sel, '=', 18) == 28);
    assert(fps_selector(sel) == 60);
}

proof fn lema_etiqueta_1440p()
    ensures
        etiqueta_concuerda(formato("video_1440p"@, "MP4 1440p (2K) - Alta calidad 60FPS"@, "video"@)),
{
    lema_ids_de_video();
    reveal_strlit("video_1440p");
    reveal_strlit("MP4 1440p (2K) - Alta calidad 60FPS");
    reveal_strlit("bestvideo[height<=1440][fps<=60][vcodec^=avc]+bestaudio[ext=m4a]/best[ext=mp4]");
    reveal_with_fuel(car_desde, 40);
    reveal_with_fuel(car_antes_de, 30);
    reveal_with_fuel(fin_cifras, 8);
    reveal_with_fuel(valor_antes, 8);
    let q = "MP4 1440p (2K) - Alta calidad 60FPS"@;
    let sel = "bestvideo[height<=1440][fps<=60][vcodec^=avc]+bestaudio[ext=m4a]/best[ext=mp4]"@;
    assert(selector_video("video_1440p"@) == Some(sel));
    assert(q.len() == 35);
    assert(car_desde(q, ' ', 0) == 3);
    assert(fin_cifras(q, 4) == 8);
    assert(altura_etiqueta(q) == 1440);
    assert(car_antes_de(q, 'F', 35) == 32);
    assert(fps_etiqueta(q) == 60);
    assert(sel.len() == 78);
    assert(car_desde(sel, '=', 0) == 17);
    assert(altura_selector(sel) == 1440);
    assert(car_desde(sel, '=', 18) == 28);
    assert(fps_selector(sel) == 60);
}

proof fn lema_etiqueta_1080p_60fps()
    ensures
        etiqueta_concuerda(formato("video_1080p_60fps"@, "MP4 1080p (Full HD) - 60 FPS"@, "video"@)),
{
    lema_ids_de_video();
    reveal_strlit("video_1080p_60fps");
    reveal_strlit("MP4 1080p (Full HD) - 60 FPS");
    reveal_strlit("bestvideo[height<=1080][fps<=60][vcodec^=avc]+bestaudio[ext=m4a]/best[ext=mp4]");
    reveal_with_fuel(car_desde, 40);
    reveal_with_fuel(car_antes_de, 30);
    reveal_with_fuel(fin_cifras, 8);
    reveal_with_fuel(valor_antes, 8);
    let q = "MP4 1080p (Full HD) - 60 FPS"@;
    let sel = "bestvideo[height<=1080][fps<=60][vcodec^=avc]+bestaudio[ext=m4a]/best[ext=mp4]"@;
    assert(selector_video("video_1080p_60fps"@) == Some(sel));
    assert(q.len() == 28);
    assert(car_desde(q, ' ', 0) == 3);
    assert(fin_cifras(q, 4) == 8);
    assert(altura_etiqueta(q) == 1080);
    assert(car_antes_de(q, 'F', 28) == 25);
    assert(fps_etiqueta(q) == 60);
    assert(sel.len() == 78);
    assert(car_desde(sel, '=', 0) == 17);
    assert(altura_selector(sel) == 1080);
    assert(car_desde(sel, '=', 18) == 28);
    assert(fps_selector(sel) == 60);
}

proof fn lema_etiqueta_1080p()
    ensures
        etiqueta_concuerda(formato("video_1080p"@, "MP4 1080p (Full HD) - 30 FPS"@, "video"@)),
{
    lema_ids_de_video();
    reveal_strlit("video_1080p");
    reveal_strlit("MP4 1080p (Full HD) - 30 FPS");
    reveal_strlit("bestvideo[height<=1080][fps<=30][vcodec^=avc]+bestaudio[ext=m4a]/best[ext=mp4]");
    reveal_with_fuel(car_desde, 40);
    reveal_with_fuel(car_antes_de, 30);
    reveal_with_fuel(fin_cifras, 8);
    reveal_with_fuel(valor_antes, 8);
    let q = "MP4 1080p (Full HD) - 30 FPS"@;
    let sel = "bestvideo[height<=1080][fps<=30][vcodec^=avc]+bestaudio[ext=m4a]/best[ext=mp4]"@;
    assert(selector_video("video_1080p"@) == Some(sel));
    assert(q.len() == 28);
    assert(car_desde(q, ' ', 0) == 3);
    assert(fin_cifras(q, 4) == 8);
    assert(altura_etiqueta(q) == 1080);
    assert(car_antes_de(q, 'F', 28) == 25);
    assert(fps_etiqueta(q) == 30);
    assert(sel.len() == 78);
    assert(car_desde(sel, '=', 0) == 17);
    assert(altura_selector(sel) == 1080);
    assert(car_desde(sel, '=', 18) == 28);
    assert(fps_selector(sel) == 30);
}

proof fn lema_etiqueta_720p_60fps()
    ensures
        etiqueta_concuerda(formato("video_720p_60fps"@, "MP4 720p (HD) - 60 FPS"@, "video"@)),
{
    lema_ids_de_video();
    reveal_strlit("video_720p_60fps");
    reveal_strlit("MP4 720p (HD) - 60 FPS");
    reveal_strlit("bestvideo[height<=720][fps<=60][vcodec^=avc]+bestaudio[ext=m4a]/best[ext=mp4]");
    reveal_with_fuel(car_desde, 40);
    reveal_with_fuel(car_antes_de, 30);
    reveal_with_fuel(fin_cifras, 8);
    reveal_with_fuel(valor_antes, 8);
    let q = "MP4 720p (HD) - 60 FPS"@;
    let sel = "bestvideo[height<=720][fps<=60][vcodec^=avc]+bestaudio[ext=m4a]/best[ext=mp4]"@;
    assert(selector_video("video_720p_60fps"@) == Some(sel));
    assert(q.len() == 22);
    assert(car_desde(q, ' ', 0) == 3);
    assert(fin_cifras(q, 4) == 7);
    assert(altura_etiqueta(q) == 720);
    assert(car_antes_de(q, 'F', 22) == 19);
    assert(fps_etiqueta(q) == 60);
    assert(sel.len() == 77);
    assert(car_desde(sel, '=', 0) == 17);
    assert(altura_selector(sel) == 720);
    assert(car_desde(sel, '=', 18) == 27);
    assert(fps_selector(sel) == 60);
}

proof fn lema_etiqueta_720p()
    ensures
        etiqueta_concuerda(formato("video_720p"@, "MP4 720p (HD) - 30 FPS"@, "video"@)),
{
    lema_ids_de_video();
    reveal_strlit("video_720p");
    reveal_strlit("MP4 720p (HD) - 30 FPS");
    reveal_strlit("bestvideo[height<=720][fps<=30][vcodec^=avc]+bestaudio[ext=m4a]/best[ext=mp4]");
    reveal_with_fuel(car_desde, 40);
    reveal_with_fuel(car_antes_de, 30);
    reveal_with_fuel(fin_cifras, 8);
    reveal_with_fuel(valor_antes, 8);
    let q = "MP4 720p (HD) - 30 FPS"@;
    let sel = "bestvideo[height<=720][fps<=30][vcodec^=avc]+bestaudio[ext=m4a]/best[ext=mp4]"@;
    assert(selector_video("video_720p"@) == Some(sel));
    assert(q.len() == 22);
    assert(car_desde(q, ' ', 0) == 3);
    assert(fin_cifras(q, 4) == 7);
    assert(altura_etiqueta(q) == 720);
    assert(car_antes_de(q, 'F', 22) == 19);
    assert(fps_etiqueta(q) == 30);
    assert(sel.len() == 77);
    assert(car_desde(sel, '=', 0) == 17);
    assert(altura_selector(sel) == 720);
    assert(car_desde(sel, '=', 18) == 27);
    assert(fps_selector(sel) == 30);
}

proof fn lema_etiqueta_480p()
    ensures
        etiqueta_concuerda(formato("video_480p"@, "MP4 480p - Calidad media"@, "video"@)),
{
    lema_ids_de_video();
    reveal_strlit("video_480p");
    reveal_strlit("MP4 480p - Calidad media");
    reveal_strlit("bestvideo[height<=480][vcodec^=avc]+bestaudio[ext=m4a]/best[ext=mp4]");
    reveal_with_fuel(car_desde, 40);
    reveal_with_fuel(car_antes_de, 30);
    reveal_with_fuel(fin_cifras, 8);
    reveal_with_fuel(valor_antes, 8);
    let q = "MP4 480p - Calidad media"@;
    let sel = "bestvideo[height<=480][vcodec^=avc]+bestaudio[ext=m4a]/best[ext=mp4]"@;
    assert(selector_video("video_480p"@) == Some(sel));
    assert(q.len() == 24);
    assert(car_desde(q, ' ', 0) == 3);
    assert(fin_cifras(q, 4) == 7);
    assert(altura_etiqueta(q) == 480);
    assert(car_antes_de(q, 'F', 24) == -1);
    assert(fps_etiqueta(q) == 0);
    assert(sel.len() == 68);
    assert(car_desde(sel, '=', 0) == 17);
    assert(altura_selector(sel) == 480);
    assert(car_desde(sel, '=', 18) == 30);
    assert(fps_selector(sel) == 0);
}

proof fn lema_etiqueta_360p()
    ensures
        etiqueta_concuerda(formato("video_360p"@, "MP4 360p - Calidad baja"@, "video"@)),
{
    lema_ids_de_video();
    reveal_strlit("video_360p");
    reveal_strlit("MP4 360p - Calidad baja");
    reveal_strlit("bestvideo[height<=360][vcodec^=avc]+bestaudio[ext=m4a]/best[ext=mp4]");
    reveal_with_fuel(car_desde, 40);
    reveal_with_fuel(car_antes_de, 30);
    reveal_with_fuel(fin_cifras, 8);
    reveal_with_fuel(valor_antes, 8);
    let q = "MP4 360p - Calidad baja"@;
    let sel = "bestvideo[height<=360][vcodec^=avc]+bestaudio[ext=m4a]/best[ext=mp4]"@;
    assert(selector_video("video_360p"@) == Some(sel));
    assert(q.len() == 23);
    assert(car_desde(q, ' ', 0) == 3);
    assert(fin_cifras(q, 4) == 7);
    assert(altura_etiqueta(q) == 360);
    assert(car_antes_de(q, 'F', 23) == -1);
    assert(fps_etiqueta(q) == 0);
    assert(sel.len() == 68);
    assert(car_desde(sel, '=', 0) == 17);
    assert(altura_selector(sel) == 360);
    assert(car_desde(sel, '=', 18) == 30);
    assert(fps_selector(sel) == 0);
}

/// Each format offered for a YouTube link is labelled with what its id
/// downloads: the height and the frame rate that its label names (`MP4 1080p
/// ... 30 FPS`) are the height and frame-rate limits of the `yt-dlp` selector
/// that the download uses for it (`[height<=1080][fps<=30]`), and a label
/// that names no frame rate belongs to a selector with no frame-rate limit.
pub proof fn ley_etiquetas_concuerdan(is_playlist: bool, i: int)
    requires
        0 <= i < formatos_ofrecidos(is_playlist).len(),
    ensures
        etiqueta_concuerda(formatos_ofrecidos(is_playlist)[i]),
{
    lema_etiqueta_2160p();
    lema_etiqueta_1440p();
    lema_etiqueta_1080p_60fps();
    lema_etiqueta_1080p();
    lema_etiqueta_720p_60fps();
    lema_etiqueta_720p();
    lema_etiqueta_480p();
    lema_etiqueta_360p();
    reveal_strlit("audio_mp3");
    reveal_strlit("playlist_mp3");
    reveal_strlit("playlist");
    reveal_strlit("video_2160p");
    reveal_strlit("video_1440p");
    reveal_strlit("video_1080p_60fps");
    reveal_strlit("video_1080p");
    reveal_strlit("video_720p_60fps");
    reveal_strlit("video_720p");
    reveal_strlit("video_480p");
    reveal_strlit("video_360p");
    let f = formatos_ofrecidos(is_playlist)[i];
    if i == 0 || i >= 9 {
        assert("audio_mp3"@.len() == 9);
        assert("playlist_mp3"@.len() == 12);
        assert("playlist"@.len() == 8);
        assert("video_2160p"@.len() == 11 && "video_1440p"@.len() == 11 && "video_1080p"@.len()
            == 11 && "video_1080p_60fps"@.len() == 17 && "video_720p_60fps"@.len() == 16
            && "video_720p"@.len() == 10 && "video_480p"@.len() == 10 && "video_360p"@.len()
            == 10);
        assert(selector_video(f.id) is None);
    }
}

} // verus!
