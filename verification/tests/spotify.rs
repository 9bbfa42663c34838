use mindload::{consulta_spotify, peticion_pista};

#[test]
fn peticion_de_una_pista() {
    let p = peticion_pista("https://open.spotify.com/track/4uLU6hMCjMI75M1A2tKUQC?si=1", "tok");
    assert_eq!(p.url, "https://api.spotify.com/v1/tracks/4uLU6hMCjMI75M1A2tKUQC");
    assert_eq!(p.autorizacion, "Bearer tok");
}

#[test]
fn consulta_con_varios_artistas() {
    let a = vec!["Queen".to_string(), "David Bowie".to_string()];
    assert_eq!(consulta_spotify(&a, "Under Pressure", "Hot Space"), "Queen David Bowie Under Pressure Hot Space");
}

#[test]
fn consulta_con_un_artista() {
    let a = vec!["Queen".to_string()];
    assert_eq!(consulta_spotify(&a, "Bohemian Rhapsody", "A Night at the Opera"), "Queen Bohemian Rhapsody A Night at the Opera");
}

#[test]
fn consulta_sin_artistas() {
    let a: Vec<String> = vec![];
    assert_eq!(consulta_spotify(&a, "X", "Y"), " X Y");
}
