//! What the downloader tells its user about a link: the offered formats and
//! the video (or playlist) information, with their mathematical views.

use vstd::prelude::*;

verus! {

/// A download format offered to the user.
#[derive(Clone, Debug)]
pub struct Format {
    pub id: String,
    pub quality: String,
    pub size: Option<String>,
    pub format_type: String,
}

/// What is shown of a link before downloading it.
#[derive(Clone, Debug)]
pub struct VideoInfo {
    pub title: String,
    pub duration: String,
    pub thumbnail: String,
    pub formats: Vec<Format>,
    pub is_spotify: bool,
    pub is_playlist: bool,
}

/// The view of a `Format`.
pub struct FormatoVista {
    pub id: Seq<char>,
    pub quality: Seq<char>,
    pub size: Option<Seq<char>>,
    pub format_type: Seq<char>,
}

/// The view of a `VideoInfo`.
pub struct InfoVista {
    pub title: Seq<char>,
    pub duration: Seq<char>,
    pub thumbnail: Seq<char>,
    pub formats: Seq<FormatoVista>,
    pub is_spotify: bool,
    pub is_playlist: bool,
}

/// The view of an optional text.
pub open spec fn vista_opcional(o: Option<String>) -> Option<Seq<char>> {
    match o {
        Some(s) => Some(s@),
        None => None,
    }
}

/// The text held by `o`, or `d` where there is none.
pub open spec fn o_bien(o: Option<Seq<char>>, d: Seq<char>) -> Seq<char> {
    match o {
        Some(s) => s,
        None => d,
    }
}

impl View for Format {
    type V = FormatoVista;

    open spec fn view(&self) -> FormatoVista {
        FormatoVista {
            id: self.id@,
            quality: self.quality@,
            size: vista_opcional(self.size),
            format_type: self.format_type@,
        }
    }
}

/// The views of a sequence of formats.
pub open spec fn vistas_formatos(v: Seq<Format>) -> Seq<FormatoVista> {
    v.map_values(|f: Format| f@)
}

impl View for VideoInfo {
    type V = InfoVista;

    open spec fn view(&self) -> InfoVista {
        InfoVista {
            title: self.title@,
            duration: self.duration@,
            thumbnail: self.thumbnail@,
            formats: vistas_formatos(self.formats@),
            is_spotify: self.is_spotify,
            is_playlist: self.is_playlist,
        }
    }
}

/// A format of no known size.
pub open spec fn formato(id: Seq<char>, quality: Seq<char>, tipo: Seq<char>) -> FormatoVista {
    FormatoVista { id, quality, size: None, format_type: tipo }
}

/// The formats offered for every YouTube link: MP3 audio, then video from
/// 2160p down to 360p.
pub open spec fn formatos_sueltos() -> Seq<FormatoVista> {
    seq![
        formato("audio_mp3"@, "MP3 Audio"@, "audio"@),
        formato("video_2160p"@, "MP4 2160p (4K) - Alta calidad 60FPS"@, "video"@),
        formato("video_1440p"@, "MP4 1440p (2K) - Alta calidad 60FPS"@, "video"@),
        formato("video_1080p_60fps"@, "MP4 1080p (Full HD) - 60 FPS"@, "video"@),
        formato("video_1080p"@, "MP4 1080p (Full HD) - 30 FPS"@, "video"@),
        formato("video_720p_60fps"@, "MP4 720p (HD) - 60 FPS"@, "video"@),
        formato("video_720p"@, "MP4 720p (HD) - 30 FPS"@, "video"@),
        formato("video_480p"@, "MP4 480p - Calidad media"@, "video"@),
        formato("video_360p"@, "MP4 360p - Calidad baja"@, "video"@),
    ]
}

/// The formats offered for a whole playlist.
pub open spec fn formatos_de_lista() -> Seq<FormatoVista> {
    seq![
        formato("playlist_mp3"@, "Playlist completa en MP3"@, "audio"@),
        formato("playlist"@, "Playlist completa en video 1080p 60FPS"@, "video"@),
    ]
}

/// The formats offered for a YouTube link, with the playlist ones at the end
/// where the link is a playlist.
pub open spec fn formatos_ofrecidos(is_playlist: bool) -> Seq<FormatoVista> {
    if is_playlist {
        formatos_sueltos() + formatos_de_lista()
    } else {
        formatos_sueltos()
    }
}

/// The formats offered for a song found from Spotify.
pub open spec fn formatos_de_spotify() -> Seq<FormatoVista> {
    seq![
        formato("audio_mp3_spotify"@, "MP3 320kbps (Calidad Spotify)"@, "audio"@),
        formato("audio_mp3_high"@, "MP3 Mejor Calidad"@, "audio"@),
    ]
}

/// A format of no known size.
pub fn nuevo_formato(id: &str, quality: &str, tipo: &str) -> (f: Format)
    ensures
        f@ == formato(id@, quality@, tipo@),
{
    Format { id: id.to_owned(), quality: quality.to_owned(), size: None, format_type: tipo.to_owned() }
}

/// Appends a format of no known size to `v`.
fn agregar_formato(v: &mut Vec<Format>, id: &str, quality: &str, tipo: &str)
    ensures
        vistas_formatos(final(v)@) == vistas_formatos(old(v)@).push(formato(id@, quality@, tipo@)),
{
    let f = nuevo_formato(id, quality, tipo);
    v.push(f);
    assert(vistas_formatos(v@) =~= vistas_formatos(old(v)@).push(formato(id@, quality@, tipo@)));
}

/// The formats offered for a YouTube link.
pub fn formatos_video(is_playlist: bool) -> (r: Vec<Format>)
    ensures
        vistas_formatos(r@) == formatos_ofrecidos(is_playlist),
{
    let mut v: Vec<Format> = Vec::new();
    assert(vistas_formatos(v@) =~= Seq::<FormatoVista>::empty());
    agregar_formato(&mut v, "audio_mp3", "MP3 Audio", "audio");
    agregar_formato(&mut v, "video_2160p", "MP4 2160p (4K) - Alta calidad 60FPS", "video");
    agregar_formato(&mut v, "video_1440p", "MP4 1440p (2K) - Alta calidad 60FPS", "video");
    agregar_formato(&mut v, "video_1080p_60fps", "MP4 1080p (Full HD) - 60 FPS", "video");
    agregar_formato(&mut v, "video_1080p", "MP4 1080p (Full HD) - 30 FPS", "video");
    agregar_formato(&mut v, "video_720p_60fps", "MP4 720p (HD) - 60 FPS", "video");
    agregar_formato(&mut v, "video_720p", "MP4 720p (HD) - 30 FPS", "video");
    agregar_formato(&mut v, "video_480p", "MP4 480p - Calidad media", "video");
    agregar_formato(&mut v, "video_360p", "MP4 360p - Calidad baja", "video");
    assert(vistas_formatos(v@) =~= formatos_sueltos());
    if is_playlist {
        agregar_formato(&mut v, "playlist_mp3", "Playlist completa en MP3", "audio");
        agregar_formato(&mut v, "playlist", "Playlist completa en video 1080p 60FPS", "video");
        assert(vistas_formatos(v@) =~= formatos_sueltos() + formatos_de_lista());
    }
    v
}

/// The formats offered for a song found from Spotify.
pub fn formatos_spotify() -> (r: Vec<Format>)
    ensures
        vistas_formatos(r@) == formatos_de_spotify(),
{
    let mut v: Vec<Format> = Vec::new();
    assert(vistas_formatos(v@) =~= Seq::<FormatoVista>::empty());
    agregar_formato(&mut v, "audio_mp3_spotify", "MP3 320kbps (Calidad Spotify)", "audio");
    agregar_formato(&mut v, "audio_mp3_high", "MP3 Mejor Calidad", "audio");
    assert(vistas_formatos(v@) =~= formatos_de_spotify());
    v
}

} // verus!
