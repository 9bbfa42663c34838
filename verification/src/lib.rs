//! Decisions of a YouTube/Spotify downloader front end: recognising the kind
//! of a link, building the `yt-dlp` argument lists, reading `yt-dlp`'s JSON
//! answer into the information shown to the user, and formatting durations.

pub mod texto;
pub mod plataforma;
pub mod duracion;
pub mod modelo;
pub mod json;
pub mod respuesta;
pub mod descarga;
pub mod spotify;
pub mod leyes;

pub use descarga::{
    argumentos_busqueda, argumentos_descarga, planear_info, resultado_descarga, url_de_descarga,
    PlanInfo,
};
pub use duracion::format_duration;
pub use modelo::{Format, VideoInfo};
pub use plataforma::{
    clasificar_plataforma, detectar_plataforma, es_playlist, extraer_id_spotify,
    limpiar_url_playlist, Plataforma,
};
pub use respuesta::{info_de_busqueda, info_de_ytdlp, leer_metadatos, MetadatosYtDlp};
pub use spotify::{consulta_spotify, peticion_pista, PeticionPista};
