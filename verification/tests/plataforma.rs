use mindload::{
    clasificar_plataforma, detectar_plataforma, es_playlist, extraer_id_spotify,
    limpiar_url_playlist, Plataforma,
};

#[test]
fn detecta_album_de_spotify() {
    assert_eq!(detectar_plataforma("https://open.spotify.com/album/1ATL5GLyefJaxhQzSPVrLX"), "spotify_album");
}

#[test]
fn detecta_lista_de_spotify() {
    assert_eq!(detectar_plataforma("https://open.spotify.com/playlist/37i9dQZF1DXcBWIGoYBM5M"), "spotify_playlist");
}

#[test]
fn detecta_pista_de_spotify() {
    assert_eq!(detectar_plataforma("https://open.spotify.com/track/4uLU6hMCjMI75M1A2tKUQC?si=abc"), "spotify_track");
}

#[test]
fn detecta_otro_enlace_de_spotify() {
    assert_eq!(detectar_plataforma("https://open.spotify.com/artist/0OdUWJ0sBjDrqHygGUXeCF"), "spotify");
}

#[test]
fn detecta_lista_de_youtube_music() {
    assert_eq!(detectar_plataforma("https://music.youtube.com/playlist?list=PL123"), "youtube_music_playlist");
    assert_eq!(detectar_plataforma("https://music.youtube.com/watch?v=abc&list=RD123"), "youtube_music_playlist");
}

#[test]
fn detecta_cancion_de_youtube_music() {
    assert_eq!(detectar_plataforma("https://music.youtube.com/watch?v=abc"), "youtube");
}

#[test]
fn detecta_lista_de_youtube() {
    assert_eq!(detectar_plataforma("https://www.youtube.com/playlist?list=PL123"), "youtube_playlist");
    assert_eq!(detectar_plataforma("https://www.youtube.com/watch?v=abc&list=PL123"), "youtube_playlist");
}

#[test]
fn video_de_lista_con_indice_es_video() {
    assert_eq!(detectar_plataforma("https://www.youtube.com/watch?v=abc&list=PL123&index=3"), "youtube");
}

#[test]
fn detecta_enlace_corto_de_youtube() {
    assert_eq!(detectar_plataforma("https://youtu.be/dQw4w9WgXcQ"), "youtube");
}

#[test]
fn enlace_desconocido() {
    assert_eq!(detectar_plataforma("https://vimeo.com/12345"), "unknown");
    assert_eq!(detectar_plataforma(""), "unknown");
}

#[test]
fn clasificacion_y_nombre_coinciden() {
    let p = clasificar_plataforma("https://youtu.be/x?list=PL1");
    assert_eq!(p, Plataforma::YoutubePlaylist);
    assert_eq!(p.nombre(), "youtube_playlist");
}

#[test]
fn es_playlist_casos() {
    assert!(es_playlist("https://www.youtube.com/watch?v=abc&list=PL1"));
    assert!(!es_playlist("https://www.youtube.com/watch?v=abc&list=PL1&index=2"));
    assert!(es_playlist("https://www.youtube.com/playlist?list=PL1&index=2"));
    assert!(!es_playlist("https://www.youtube.com/watch?v=abc"));
}

#[test]
fn limpia_la_cola_de_lista() {
    assert_eq!(
        limpiar_url_playlist("https://www.youtube.com/watch?v=abc&list=PL1&index=2"),
        "https://www.youtube.com/watch?v=abc"
    );
}

#[test]
fn sin_cola_de_lista_no_cambia() {
    assert_eq!(
        limpiar_url_playlist("https://www.youtube.com/watch?v=abc"),
        "https://www.youtube.com/watch?v=abc"
    );
    assert_eq!(limpiar_url_playlist("https://www.youtube.com/playlist?list=PL1"), "https://www.youtube.com/playlist?list=PL1");
}

#[test]
fn limpiar_dos_veces_es_limpiar_una() {
    let u = "a&list=x&list=y";
    let una = limpiar_url_playlist(u);
    assert_eq!(una, "a");
    assert_eq!(limpiar_url_playlist(&una), una);
}

#[test]
fn limpia_texto_no_ascii() {
    assert_eq!(limpiar_url_playlist("ñandú&list=x"), "ñandú");
}

#[test]
fn id_de_pista_de_spotify() {
    assert_eq!(extraer_id_spotify("https://open.spotify.com/track/4uLU6hMCjMI75M1A2tKUQC?si=abc"), "4uLU6hMCjMI75M1A2tKUQC");
    assert_eq!(extraer_id_spotify("https://open.spotify.com/track/4uLU6hMCjMI75M1A2tKUQC"), "4uLU6hMCjMI75M1A2tKUQC");
}

#[test]
fn id_sin_barras() {
    assert_eq!(extraer_id_spotify("abc?x=1"), "abc");
    assert_eq!(extraer_id_spotify("abc"), "abc");
    assert_eq!(extraer_id_spotify(""), "");
}

#[test]
fn id_de_enlace_que_acaba_en_barra() {
    assert_eq!(extraer_id_spotify("https://open.spotify.com/track/"), "");
}

#[test]
fn id_con_interrogacion_antes_de_la_barra() {
    // The last `/` decides where the identifier starts, even after a `?`.
    assert_eq!(extraer_id_spotify("a?b/c?d"), "c");
}

#[test]
fn id_no_tiene_separadores() {
    for u in ["a/b/c?d?e", "/x/", "??/", "https://open.spotify.com/track/id?si=1/2"] {
        let id = extraer_id_spotify(u);
        assert!(!id.contains('/') && !id.contains('?'), "{u} -> {id}");
    }
}
