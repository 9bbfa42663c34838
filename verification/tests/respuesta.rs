use mindload::modelo::{formatos_spotify, formatos_video};
use mindload::{info_de_busqueda, info_de_ytdlp, leer_metadatos};

fn ids(v: &[mindload::Format]) -> Vec<&str> {
    v.iter().map(|f| f.id.as_str()).collect()
}

#[test]
fn formatos_de_un_video() {
    let f = formatos_video(false);
    assert_eq!(
        ids(&f),
        vec![
            "audio_mp3",
            "video_2160p",
            "video_1440p",
            "video_1080p_60fps",
            "video_1080p",
            "video_720p_60fps",
            "video_720p",
            "video_480p",
            "video_360p"
        ]
    );
    assert_eq!(f[0].quality, "MP3 Audio");
    assert_eq!(f[0].format_type, "audio");
    assert_eq!(f[1].quality, "MP4 2160p (4K) - Alta calidad 60FPS");
    assert_eq!(f[8].quality, "MP4 360p - Calidad baja");
    assert!(f[1..].iter().all(|x| x.format_type == "video" && x.size.is_none()));
}

#[test]
fn formatos_de_una_lista() {
    let f = formatos_video(true);
    assert_eq!(f.len(), 11);
    assert_eq!(f[9].id, "playlist_mp3");
    assert_eq!(f[9].quality, "Playlist completa en MP3");
    assert_eq!(f[9].format_type, "audio");
    assert_eq!(f[10].id, "playlist");
    assert_eq!(f[10].quality, "Playlist completa en video 1080p 60FPS");
    assert_eq!(f[10].format_type, "video");
}

#[test]
fn formatos_de_spotify() {
    let f = formatos_spotify();
    assert_eq!(ids(&f), vec!["audio_mp3_spotify", "audio_mp3_high"]);
    assert_eq!(f[0].quality, "MP3 320kbps (Calidad Spotify)");
    assert_eq!(f[1].quality, "MP3 Mejor Calidad");
}

const VIDEO: &str = r#"{"title": "Canción", "duration": 3725, "thumbnail": "https://i.ytimg.com/x.jpg",
    "thumbnails": [{"url": "https://i.ytimg.com/a.jpg"}], "playlist_title": null}"#;

const LISTA: &str = r#"{"title": "Primera", "playlist_title": "Mi lista", "duration": 125,
    "thumbnails": [{"url": "https://i.ytimg.com/a.jpg"}, {"url": "https://i.ytimg.com/b.jpg"}]}"#;

#[test]
fn lee_los_campos_del_json() {
    let m = leer_metadatos(VIDEO).unwrap();
    assert_eq!(m.title.as_deref(), Some("Canción"));
    assert_eq!(m.playlist_title, None);
    assert_eq!(m.duration, Some(3725));
    assert_eq!(m.thumbnail.as_deref(), Some("https://i.ytimg.com/x.jpg"));
    assert_eq!(m.primera_miniatura.as_deref(), Some("https://i.ytimg.com/a.jpg"));
}

#[test]
fn duracion_negativa_o_decimal_no_se_lee() {
    assert_eq!(leer_metadatos(r#"{"duration": -3}"#).unwrap().duration, None);
    assert_eq!(leer_metadatos(r#"{"duration": 12.5}"#).unwrap().duration, None);
    assert_eq!(leer_metadatos(r#"{"duration": "12"}"#).unwrap().duration, None);
}

#[test]
fn json_que_no_es_objeto() {
    let m = leer_metadatos("[1, 2]").unwrap();
    assert_eq!(m.title, None);
    assert_eq!(m.duration, None);
    assert_eq!(m.primera_miniatura, None);
}

#[test]
fn json_invalido() {
    let e = leer_metadatos("esto no es json").unwrap_err();
    assert!(e.starts_with("Error al parsear JSON: "), "{e}");
    assert!(e.len() > "Error al parsear JSON: ".len());
    assert!(e.contains("line 1 column"), "{e}");
}

#[test]
fn el_error_de_json_depende_del_texto() {
    let a = leer_metadatos("").unwrap_err();
    let b = leer_metadatos("{\"title\": ").unwrap_err();
    assert_ne!(a, b);
    assert_eq!(info_de_ytdlp(true, "", "", false).unwrap_err(), a);
    assert_eq!(info_de_busqueda(true, "", "").unwrap_err(), a);
}

#[test]
fn info_de_un_video() {
    let v = info_de_ytdlp(true, "", VIDEO, false).unwrap();
    assert_eq!(v.title, "Canción");
    assert_eq!(v.duration, "1:02:05");
    assert_eq!(v.thumbnail, "https://i.ytimg.com/x.jpg");
    assert_eq!(v.formats.len(), 9);
    assert!(!v.is_spotify);
    assert!(!v.is_playlist);
}

#[test]
fn info_de_una_lista() {
    let v = info_de_ytdlp(true, "", LISTA, true).unwrap();
    assert_eq!(v.title, "Mi lista");
    assert_eq!(v.duration, "2:05");
    assert_eq!(v.thumbnail, "https://i.ytimg.com/a.jpg");
    assert_eq!(v.formats.len(), 11);
    assert!(v.is_playlist);
}

#[test]
fn valores_por_omision() {
    let v = info_de_ytdlp(true, "", "{}", false).unwrap();
    assert_eq!(v.title, "Desconocido");
    assert_eq!(v.duration, "0:00");
    assert_eq!(v.thumbnail, "");
    let l = info_de_ytdlp(true, "", "{}", true).unwrap();
    assert_eq!(l.title, "Playlist");
    assert_eq!(l.thumbnail, "");
}

#[test]
fn fallo_de_ytdlp() {
    let e = info_de_ytdlp(false, "ERROR: video no disponible", VIDEO, false).unwrap_err();
    assert_eq!(e, "Error en yt-dlp: ERROR: video no disponible");
}

#[test]
fn salida_que_no_es_json() {
    let e = info_de_ytdlp(true, "", "", false).unwrap_err();
    assert!(e.starts_with("Error al parsear JSON: "));
}

#[test]
fn info_de_una_busqueda() {
    let v = info_de_busqueda(true, "", VIDEO).unwrap();
    assert_eq!(v.title, "Canción");
    assert_eq!(v.duration, "1:02:05");
    assert_eq!(v.thumbnail, "https://i.ytimg.com/x.jpg");
    assert_eq!(v.formats.len(), 2);
    assert_eq!(v.formats[0].id, "audio_mp3_spotify");
    assert!(v.is_spotify);
    assert!(!v.is_playlist);
}

#[test]
fn busqueda_fallida() {
    assert_eq!(info_de_busqueda(false, "nada", "{}").unwrap_err(), "Error en busqueda: nada");
    assert!(info_de_busqueda(true, "", "{").unwrap_err().starts_with("Error al parsear JSON: "));
}
