# mindload

The decisions of a desktop downloader for YouTube and Spotify links, written
in Verus and proved against their contracts.

- `src/texto.rs`: searching text by characters (substrings, first and last
  positions), with lemmas on what each search finds.
- `src/plataforma.rs`: what a link points at, whether it is a playlist, a link
  without its `&list=` tail, the identifier of a Spotify link.
- `src/duracion.rs`: `M:SS` / `H:MM:SS` durations, and the proof that such a
  text reads back as the same number of seconds.
- `src/modelo.rs`: `Format` and `VideoInfo`, their views, the offered formats.
- `src/json.rs`: the trusted calls into serde_json that read `yt-dlp`'s answer.
- `src/respuesta.rs`: from `yt-dlp`'s exit status and output to a `VideoInfo`.
- `src/descarga.rs`: the `yt-dlp` argument lists for showing, searching and
  downloading in each format.
- `src/spotify.rs`: the Spotify web API request for a track, and the YouTube
  search built from its answer.
- `src/leyes.rs`: properties that span several functions.
- `app/main.rs`: the Tauri shell: HTTP requests, running `yt-dlp`, the
  download folder.
