use mindload::format_duration;

#[test]
fn cero_segundos() {
    assert_eq!(format_duration(0), "0:00");
}

#[test]
fn menos_de_un_minuto() {
    assert_eq!(format_duration(5), "0:05");
    assert_eq!(format_duration(59), "0:59");
}

#[test]
fn minutos_y_segundos() {
    assert_eq!(format_duration(61), "1:01");
    assert_eq!(format_duration(213), "3:33");
    assert_eq!(format_duration(3599), "59:59");
}

#[test]
fn horas() {
    assert_eq!(format_duration(3600), "1:00:00");
    assert_eq!(format_duration(3661), "1:01:01");
    assert_eq!(format_duration(36000 + 600 + 10), "10:10:10");
}

#[test]
fn duracion_maxima() {
    // u64::MAX seconds: 5124095576030431 hours, 0 minutes, 15 seconds.
    assert_eq!(format_duration(u64::MAX), "5124095576030431:00:15");
}

fn segundos_leidos(t: &str) -> u64 {
    t.split(':').fold(0, |acc, campo| acc * 60 + campo.parse::<u64>().unwrap())
}

#[test]
fn el_texto_se_lee_como_los_mismos_segundos() {
    for s in [0u64, 1, 9, 10, 59, 60, 600, 3599, 3600, 3601, 86399, 86400, 123456789] {
        assert_eq!(segundos_leidos(&format_duration(s)), s);
    }
}
