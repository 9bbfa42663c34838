use mindload::modelo::{formatos_spotify, formatos_video};
use mindload::{
    argumentos_busqueda, argumentos_descarga, planear_info, resultado_descarga, url_de_descarga,
    PlanInfo,
};

const CARPETA: &str = "/home/u/Descargas/Mindload";
const VIDEO: &str = "https://www.youtube.com/watch?v=abc";
const LISTA: &str = "https://www.youtube.com/playlist?list=PL1";

fn s(v: &[&str]) -> Vec<String> {
    v.iter().map(|x| x.to_string()).collect()
}

#[test]
fn destino_de_un_video() {
    assert_eq!(url_de_descarga(VIDEO, None).unwrap(), VIDEO);
    assert_eq!(url_de_descarga(VIDEO, Some("q".to_string())).unwrap(), VIDEO);
}

#[test]
fn destino_de_spotify_por_nombre() {
    let u = "https://open.spotify.com/album/1ATL5";
    assert_eq!(url_de_descarga(u, Some("Artista Cancion".to_string())).unwrap(), "ytsearch1:Artista Cancion");
    assert_eq!(
        url_de_descarga(u, None).unwrap_err(),
        "Se necesita el nombre de la cancion para Spotify"
    );
    assert_eq!(url_de_descarga("https://open.spotify.com/artist/1", None).unwrap_err(), "Se necesita el nombre de la cancion para Spotify");
}

#[test]
fn una_pista_de_spotify_se_pasa_tal_cual() {
    let u = "https://open.spotify.com/track/4uLU6";
    assert_eq!(url_de_descarga(u, None).unwrap(), u);
}

#[test]
fn formato_no_valido() {
    assert_eq!(argumentos_descarga(VIDEO, "video_8k", CARPETA, VIDEO).unwrap_err(), "Formato no valido");
    assert_eq!(argumentos_descarga(VIDEO, "", CARPETA, VIDEO).unwrap_err(), "Formato no valido");
}

#[test]
fn descarga_de_video_1080p() {
    let a = argumentos_descarga(VIDEO, "video_1080p", CARPETA, VIDEO).unwrap();
    assert_eq!(
        a,
        s(&[
            "-f",
            "bestvideo[height<=1080][fps<=30][vcodec^=avc]+bestaudio[ext=m4a]/best[ext=mp4]",
            "--merge-output-format",
            "mp4",
            "--sleep-interval",
            "3",
            "--retries",
            "10",
            "--fragment-retries",
            "10",
            "-o",
            "/home/u/Descargas/Mindload/%(title)s.%(ext)s",
            VIDEO,
        ])
    );
}

#[test]
fn selectores_de_video() {
    let casos = [
        ("video_2160p", "bestvideo[height<=2160][fps<=60][vcodec^=avc]+bestaudio[ext=m4a]/best[ext=mp4]"),
        ("video_1440p", "bestvideo[height<=1440][fps<=60][vcodec^=avc]+bestaudio[ext=m4a]/best[ext=mp4]"),
        ("video_1080p_60fps", "bestvideo[height<=1080][fps<=60][vcodec^=avc]+bestaudio[ext=m4a]/best[ext=mp4]"),
        ("video_720p_60fps", "bestvideo[height<=720][fps<=60][vcodec^=avc]+bestaudio[ext=m4a]/best[ext=mp4]"),
        ("video_720p", "bestvideo[height<=720][fps<=30][vcodec^=avc]+bestaudio[ext=m4a]/best[ext=mp4]"),
        ("video_480p", "bestvideo[height<=480][vcodec^=avc]+bestaudio[ext=m4a]/best[ext=mp4]"),
        ("video_360p", "bestvideo[height<=360][vcodec^=avc]+bestaudio[ext=m4a]/best[ext=mp4]"),
    ];
    for (id, sel) in casos {
        let a = argumentos_descarga(VIDEO, id, CARPETA, VIDEO).unwrap();
        assert_eq!(a.len(), 13);
        assert_eq!(a[1], sel);
    }
}

#[test]
fn mp3_de_una_cancion() {
    let a = argumentos_descarga(VIDEO, "audio_mp3", CARPETA, VIDEO).unwrap();
    assert_eq!(
        a,
        s(&[
            "-f",
            "bestaudio",
            "--extract-audio",
            "--audio-format",
            "mp3",
            "--audio-quality",
            "320K",
            "--embed-thumbnail",
            "--embed-metadata",
            "--parse-metadata",
            "artist:%(artist)s",
            "--parse-metadata",
            "title:%(title)s",
            "--sleep-interval",
            "3",
            "--retries",
            "10",
            "--fragment-retries",
            "10",
            "-o",
            "/home/u/Descargas/Mindload/%(artist)s - %(title)s.%(ext)s",
            VIDEO,
        ])
    );
}

#[test]
fn mp3_alta_calidad_de_una_lista() {
    let a = argumentos_descarga(LISTA, "audio_mp3_high", CARPETA, LISTA).unwrap();
    assert_eq!(
        a,
        s(&[
            "--yes-playlist",
            "--ignore-errors",
            "--no-abort-on-error",
            "-f",
            "bestaudio",
            "--extract-audio",
            "--audio-format",
            "mp3",
            "--audio-quality",
            "320K",
            "--embed-thumbnail",
            "--embed-metadata",
            "--parse-metadata",
            "playlist_index:%(track_number)s",
            "--parse-metadata",
            "uploader:%(artist)s",
            "--replace-in-metadata",
            "artist",
            " - ",
            ", ",
            "--replace-in-metadata",
            "artist",
            " & ",
            ", ",
            "--parse-metadata",
            "title:%(title)s",
            "--sleep-interval",
            "3",
            "--retries",
            "10",
            "--fragment-retries",
            "10",
            "-o",
            "/home/u/Descargas/Mindload/%(playlist_title)s/%(playlist_index)s - %(artist)s - %(title)s.%(ext)s",
            "--audio-quality",
            "320K",
            LISTA,
        ])
    );
}

#[test]
fn mp3_de_album_de_spotify_es_lista() {
    let u = "https://open.spotify.com/album/1ATL5";
    let a = argumentos_descarga(u, "audio_mp3_spotify", CARPETA, "ytsearch1:x").unwrap();
    assert_eq!(a[0], "--yes-playlist");
    assert_eq!(a[a.len() - 2], "/home/u/Descargas/Mindload/%(playlist_title)s/%(playlist_index)s - %(artist)s - %(title)s.%(ext)s");
    assert_eq!(a[a.len() - 1], "ytsearch1:x");
}

#[test]
fn lista_completa_en_mp3() {
    let a = argumentos_descarga(LISTA, "playlist_mp3", CARPETA, LISTA).unwrap();
    assert_eq!(
        a,
        s(&[
            "--yes-playlist",
            "--ignore-errors",
            "--no-abort-on-error",
            "--extract-audio",
            "--audio-format",
            "mp3",
            "--audio-quality",
            "320K",
            "--embed-thumbnail",
            "--embed-metadata",
            "--parse-metadata",
            "playlist_index:%(track_number)s",
            "--parse-metadata",
            "title:%(meta_title)s",
            "--parse-metadata",
            "uploader:%(artist)s",
            "--replace-in-metadata",
            "artist",
            " - ",
            ", ",
            "--replace-in-metadata",
            "artist",
            " & ",
            ", ",
            "--sleep-interval",
            "3",
            "--retries",
            "10",
            "--fragment-retries",
            "10",
            "-o",
            "/home/u/Descargas/Mindload/%(playlist_title)s/%(playlist_index)s - %(artist)s - %(title)s.%(ext)s",
            LISTA,
        ])
    );
}

#[test]
fn lista_completa_en_video() {
    let a = argumentos_descarga(LISTA, "playlist", CARPETA, LISTA).unwrap();
    assert_eq!(
        a,
        s(&[
            "--yes-playlist",
            "--ignore-errors",
            "--no-abort-on-error",
            "-f",
            "bestvideo[height<=1080][fps<=60][vcodec^=avc]+bestaudio[ext=m4a]/best[ext=mp4]",
            "--merge-output-format",
            "mp4",
            "--sleep-interval",
            "3",
            "--retries",
            "10",
            "--fragment-retries",
            "10",
            "-o",
            "/home/u/Descargas/Mindload/%(playlist_title)s/%(playlist_index)s - %(title)s.%(ext)s",
            LISTA,
        ])
    );
}

#[test]
fn todo_formato_ofrecido_se_descarga_en_la_carpeta() {
    for url in [VIDEO, LISTA, "https://open.spotify.com/album/1"] {
        let mut ofrecidos = formatos_video(false);
        ofrecidos.extend(formatos_video(true));
        ofrecidos.extend(formatos_spotify());
        for f in ofrecidos {
            let a = argumentos_descarga(url, &f.id, CARPETA, "destino").unwrap();
            assert_eq!(a.last().unwrap(), "destino");
            let k = a.iter().position(|x| x == "-o").unwrap();
            assert!(a[k + 1].starts_with("/home/u/Descargas/Mindload/"));
        }
    }
}

#[test]
fn plan_de_pista_de_spotify() {
    assert!(matches!(planear_info("https://open.spotify.com/track/x"), PlanInfo::BuscarEnSpotify));
}

#[test]
fn plan_de_album_de_spotify() {
    match planear_info("https://open.spotify.com/album/x") {
        PlanInfo::Rechazar(e) => assert_eq!(e, "SPOTIFY_PLAYLIST_NOT_SUPPORTED"),
        _ => panic!("se esperaba un rechazo"),
    }
    assert!(matches!(planear_info("https://open.spotify.com/playlist/x"), PlanInfo::Rechazar(_)));
}

#[test]
fn plan_de_video() {
    match planear_info("https://www.youtube.com/watch?v=abc&list=PL1&index=4") {
        PlanInfo::ConsultarYtDlp { argumentos, is_playlist } => {
            assert!(!is_playlist);
            assert_eq!(argumentos, s(&["-j", "https://www.youtube.com/watch?v=abc"]));
        }
        _ => panic!("se esperaba una consulta"),
    }
}

#[test]
fn plan_de_lista() {
    match planear_info("https://www.youtube.com/watch?v=abc&list=PL1") {
        PlanInfo::ConsultarYtDlp { argumentos, is_playlist } => {
            assert!(is_playlist);
            assert_eq!(
                argumentos,
                s(&["-j", "--flat-playlist", "--playlist-items", "1", "https://www.youtube.com/watch?v=abc&list=PL1"])
            );
        }
        _ => panic!("se esperaba una consulta"),
    }
}

#[test]
fn plan_de_lista_de_youtube_music_con_indice() {
    // A YouTube Music playlist link keeps its `&list=`, yet with `&index=` it
    // is described as a single item.
    let u = "https://music.youtube.com/watch?v=abc&list=RD1&index=2";
    match planear_info(u) {
        PlanInfo::ConsultarYtDlp { argumentos, is_playlist } => {
            assert!(!is_playlist);
            assert_eq!(argumentos, s(&["-j", u]));
        }
        _ => panic!("se esperaba una consulta"),
    }
}

#[test]
fn argumentos_de_busqueda() {
    assert_eq!(
        argumentos_busqueda("Queen Bohemian Rhapsody"),
        s(&[
            "-j",
            "--default-search",
            "ytsearch",
            "--match-filter",
            "duration < 600",
            "ytsearch1:Queen Bohemian Rhapsody"
        ])
    );
}

#[test]
fn la_busqueda_y_la_descarga_apuntan_a_lo_mismo() {
    let q = "Artista Cancion";
    let b = argumentos_busqueda(q);
    let d = url_de_descarga("https://open.spotify.com/album/1", Some(q.to_string())).unwrap();
    assert_eq!(b.last().unwrap(), &d);
}

#[test]
fn resultado_de_la_descarga() {
    assert_eq!(resultado_descarga(true, "").unwrap(), "Descarga completada");
    assert_eq!(resultado_descarga(false, "sin red").unwrap_err(), "Error en yt-dlp: sin red");
}

#[test]
fn una_lista_de_youtube_se_descarga_como_lista() {
    let u = "https://www.youtube.com/watch?v=abc&list=PL1";
    assert_eq!(mindload::detectar_plataforma(u), "youtube_playlist");
    assert!(mindload::es_playlist(u));
    let a = argumentos_descarga(u, "audio_mp3", CARPETA, u).unwrap();
    assert_eq!(&a[..3], &s(&["--yes-playlist", "--ignore-errors", "--no-abort-on-error"])[..]);
}
