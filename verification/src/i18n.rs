//! The interface languages and every text shown in them.
use crate::text::{decimal, push_decimal};
use vstd::prelude::*;
use vstd::string::*;

verus! {

/// A language of the interface.
#[derive(Debug, Clone, Copy, PartialEq, Eq, Structural)]
pub enum Lang {
    Es,
    En,
    De,
    Ro,
}

/// Every fixed text of the interface, in one language.
pub struct Strings {
    // Tabs
    pub tab_search: &'static str,
    pub tab_queue: &'static str,
    pub tab_now: &'static str,
    pub tab_library: &'static str,
    // Search
    pub search_placeholder: &'static str,
    pub search_results_title: &'static str,
    pub search_sidebar_tracks: &'static str,
    pub search_sidebar_albums: &'static str,
    pub search_sidebar_artists: &'static str,
    pub search_sidebar_playlists: &'static str,
    pub search_no_tracks: &'static str,
    pub search_no_albums: &'static str,
    pub search_no_artists: &'static str,
    pub search_no_playlists: &'static str,
    pub search_load_more_hint: &'static str,
    pub search_no_more_results: &'static str,
    // Queue
    pub queue_title: &'static str,
    // Now playing
    pub now_playing_empty: &'static str,
    pub now_playing_title: &'static str,
    pub now_lyrics: &'static str,
    pub now_no_lyrics: &'static str,
    pub loading_image: &'static str,
    // Track list
    pub loading: &'static str,
    pub not_authenticated: &'static str,
    pub no_results_hint: &'static str,
    pub col_title: &'static str,
    pub col_artist: &'static str,
    pub col_album: &'static str,
    pub col_duration: &'static str,
    // Player bar
    pub player_stopped: &'static str,
    // Hint bar
    pub hint_play: &'static str,
    pub hint_pause: &'static str,
    pub hint_next_prev: &'static str,
    pub hint_seek: &'static str,
    pub hint_volume: &'static str,
    pub hint_view: &'static str,
    pub hint_quality: &'static str,
    pub hint_quit: &'static str,
    pub hint_library: &'static str,
    pub hint_fav_tracks: &'static str,
    pub hint_fav_albums: &'static str,
    pub hint_lang: &'static str,
    pub hint_add_queue: &'static str,
    pub hint_remove_queue: &'static str,
    pub hint_search_clear: &'static str,
    // Library sidebar sections
    pub lib_playlists: &'static str,
    pub lib_mixes: &'static str,
    pub lib_fav_tracks: &'static str,
    pub lib_fav_albums: &'static str,
    // Library
    pub library_title: &'static str,
    // Fav tracks
    pub fav_tracks_empty: &'static str,
    // Fav albums
    pub fav_albums_empty: &'static str,
    pub fav_albums_title: &'static str,
    pub col_tracks: &'static str,
    // Login overlay
    pub login_title_text: &'static str,
    pub login_open_url: &'static str,
    pub login_code_prefix: &'static str,
    pub login_waiting: &'static str,
    pub login_overlay_title: &'static str,
    // Status messages (static)
    pub status_no_results: &'static str,
    pub status_auth_done: &'static str,
    pub status_login_required: &'static str,
    pub status_login_required_short: &'static str,
    pub status_starting_login: &'static str,
    pub status_loading_lib: &'static str,
    pub status_loading_playlist: &'static str,
    pub status_loading_mix: &'static str,
    pub status_loading_fav_tracks: &'static str,
    pub status_loading_fav_albums: &'static str,
    pub status_session_loading: &'static str,
    pub status_session_active: &'static str,
    pub status_press_l: &'static str,
    pub status_added_to_queue: &'static str,
    pub status_already_in_queue: &'static str,
    pub status_search_cleared: &'static str,
}

/// The Spanish texts.
pub open spec fn es_texts() -> Strings {
    Strings {
        tab_search: "Buscar",
        tab_queue: "Cola",
        tab_now: "Ahora",
        tab_library: "Biblioteca",
        search_placeholder: "Presiona / para buscar...",
        search_results_title: "Resultados",
        search_sidebar_tracks: "Canciones",
        search_sidebar_albums: "Álbumes",
        search_sidebar_artists: "Artistas",
        search_sidebar_playlists: "Listas",
        search_no_tracks: "  Sin canciones",
        search_no_albums: "  Sin álbumes",
        search_no_artists: "  Sin artistas",
        search_no_playlists: "  Sin listas",
        search_load_more_hint: "Cargar más",
        search_no_more_results: "Sin más resultados",
        queue_title: "Cola de reproducción",
        now_playing_empty: "Sin reproducción — presiona Enter en una canción",
        now_playing_title: "◈ Ahora reproduciendo",
        now_lyrics: "Letras",
        now_no_lyrics: "Letras no disponibles",
        loading_image: "⟳ Cargando\n  imagen...",
        loading: "  ⟳ Cargando...",
        not_authenticated: "  Presiona L para iniciar sesión en Tidal",
        no_results_hint: "  Sin resultados — busca con /",
        col_title: "  Título",
        col_artist: "Artista",
        col_album: "Álbum",
        col_duration: "Dur.",
        player_stopped: "Sin reproducción",
        hint_play: "reproducir",
        hint_pause: "pausa",
        hint_next_prev: "sig/ant",
        hint_seek: "seek",
        hint_volume: "volumen",
        hint_view: "vista",
        hint_quality: "calidad",
        hint_quit: "salir",
        hint_library: "biblioteca",
        hint_fav_tracks: "favoritos",
        hint_fav_albums: "álbumes fav",
        hint_lang: "idioma",
        hint_add_queue: "añadir cola",
        hint_remove_queue: "eliminar",
        hint_search_clear: "limpiar búsqueda",
        lib_playlists: "Listas",
        lib_mixes: "Mixes",
        lib_fav_tracks: "Favoritos",
        lib_fav_albums: "Álbumes Fav",
        library_title: "Biblioteca",
        fav_tracks_empty: "  Sin canciones favoritas",
        fav_albums_empty: "  Sin álbumes favoritos",
        fav_albums_title: "Álbumes favoritos",
        col_tracks: "Tracks",
        login_title_text: "  Inicia sesión en Tidal",
        login_open_url: "  1. Abre este URL:",
        login_code_prefix: "  2. Código: ",
        login_waiting: "  Esperando autorización...",
        login_overlay_title: " ◈ Autenticación ",
        status_no_results: "Sin resultados",
        status_auth_done: "✓ Autenticado con Tidal",
        status_login_required: "Primero inicia sesión con 'L'",
        status_login_required_short: "Inicia sesión primero (L)",
        status_starting_login: "Iniciando login...",
        status_loading_lib: "⟳ Cargando biblioteca...",
        status_loading_playlist: "⟳ Cargando playlist...",
        status_loading_mix: "⟳ Cargando mix...",
        status_loading_fav_tracks: "⟳ Cargando canciones favoritas...",
        status_loading_fav_albums: "⟳ Cargando álbumes favoritos...",
        status_session_loading: "Cargando sesión...",
        status_session_active: "✓ Sesión activa",
        status_press_l: "Presiona 'L' para iniciar sesión en Tidal",
        status_added_to_queue: "▶ Añadido a la cola",
        status_already_in_queue: "Ya está en la cola",
        status_search_cleared: "Búsqueda limpiada",
    }
}

/// The English texts.
pub open spec fn en_texts() -> Strings {
    Strings {
        tab_search: "Search",
        tab_queue: "Queue",
        tab_now: "Now",
        tab_library: "Library",
        search_placeholder: "Press / to search...",
        search_results_title: "Results",
        search_sidebar_tracks: "Tracks",
        search_sidebar_albums: "Albums",
        search_sidebar_artists: "Artists",
        search_sidebar_playlists: "Playlists",
        search_no_tracks: "  No tracks",
        search_no_albums: "  No albums",
        search_no_artists: "  No artists",
        search_no_playlists: "  No playlists",
        search_load_more_hint: "Load more",
        search_no_more_results: "No more results",
        queue_title: "Playback Queue",
        now_playing_empty: "Nothing playing — press Enter on a track",
        now_playing_title: "◈ Now Playing",
        now_lyrics: "Lyrics",
        now_no_lyrics: "Lyrics not available",
        loading_image: "⟳ Loading\n  image...",
        loading: "  ⟳ Loading...",
        not_authenticated: "  Press L to log in to Tidal",
        no_results_hint: "  No results — search with /",
        col_title: "  Title",
        col_artist: "Artist",
        col_album: "Album",
        col_duration: "Dur.",
        player_stopped: "Nothing playing",
        hint_play: "play",
        hint_pause: "pause",
        hint_next_prev: "next/prev",
        hint_seek: "seek",
        hint_volume: "volume",
        hint_view: "view",
        hint_quality: "quality",
        hint_quit: "quit",
        hint_library: "library",
        hint_fav_tracks: "favorites",
        hint_fav_albums: "fav albums",
        hint_lang: "language",
        hint_add_queue: "add queue",
        hint_remove_queue: "remove",
        hint_search_clear: "clear search",
        lib_playlists: "Playlists",
        lib_mixes: "Mixes",
        lib_fav_tracks: "Favorites",
        lib_fav_albums: "Fav Albums",
        library_title: "Library",
        fav_tracks_empty: "  No favorite tracks",
        fav_albums_empty: "  No favorite albums",
        fav_albums_title: "Favorite Albums",
        col_tracks: "Tracks",
        login_title_text: "  Log in to Tidal",
        login_open_url: "  1. Open this URL:",
        login_code_prefix: "  2. Code: ",
        login_waiting: "  Waiting for authorization...",
        login_overlay_title: " ◈ Authentication ",
        status_no_results: "No results",
        status_auth_done: "✓ Authenticated with Tidal",
        status_login_required: "Log in first with 'L'",
        status_login_required_short: "Log in first (L)",
        status_starting_login: "Starting login...",
        status_loading_lib: "⟳ Loading library...",
        status_loading_playlist: "⟳ Loading playlist...",
        status_loading_mix: "⟳ Loading mix...",
        status_loading_fav_tracks: "⟳ Loading favorite tracks...",
        status_loading_fav_albums: "⟳ Loading favorite albums...",
        status_session_loading: "Loading session...",
        status_session_active: "✓ Session active",
        status_press_l: "Press 'L' to log in to Tidal",
        status_added_to_queue: "▶ Added to queue",
        status_already_in_queue: "Already in queue",
        status_search_cleared: "Search cleared",
    }
}

/// The German texts.
pub open spec fn de_texts() -> Strings {
    Strings {
        tab_search: "Suchen",
        tab_queue: "Warteschl.",
        tab_now: "Jetzt",
        tab_library: "Bibliothek",
        search_placeholder: "/ zum Suchen drücken...",
        search_results_title: "Ergebnisse",
        search_sidebar_tracks: "Lieder",
        search_sidebar_albums: "Alben",
        search_sidebar_artists: "Künstler",
        search_sidebar_playlists: "Playlists",
        search_no_tracks: "  Keine Lieder",
        search_no_albums: "  Keine Alben",
        search_no_artists: "  Keine Künstler",
        search_no_playlists: "  Keine Playlists",
        search_load_more_hint: "Mehr laden",
        search_no_more_results: "Keine weiteren Ergebnisse",
        queue_title: "Wiedergabeliste",
        now_playing_empty: "Keine Wiedergabe — Enter auf einem Titel drücken",
        now_playing_title: "◈ Jetzt läuft",
        now_lyrics: "Text",
        now_no_lyrics: "Kein Text verfügbar",
        loading_image: "⟳ Lädt\n  Bild...",
        loading: "  ⟳ Lädt...",
        not_authenticated: "  L drücken um sich bei Tidal anzumelden",
        no_results_hint: "  Keine Ergebnisse — suche mit /",
        col_title: "  Titel",
        col_artist: "Künstler",
        col_album: "Album",
        col_duration: "Dauer",
        player_stopped: "Keine Wiedergabe",
        hint_play: "abspielen",
        hint_pause: "pause",
        hint_next_prev: "vor/zurück",
        hint_seek: "spulen",
        hint_volume: "Lautstärke",
        hint_view: "Ansicht",
        hint_quality: "Qualität",
        hint_quit: "beenden",
        hint_library: "Bibliothek",
        hint_fav_tracks: "Favoriten",
        hint_fav_albums: "Fav-Alben",
        hint_lang: "Sprache",
        hint_add_queue: "hinzufügen",
        hint_remove_queue: "entfernen",
        hint_search_clear: "Suche löschen",
        lib_playlists: "Playlists",
        lib_mixes: "Mixes",
        lib_fav_tracks: "Favoriten",
        lib_fav_albums: "Fav-Alben",
        library_title: "Bibliothek",
        fav_tracks_empty: "  Keine Lieblingstitel",
        fav_albums_empty: "  Keine Lieblingsalben",
        fav_albums_title: "Lieblingsalben",
        col_tracks: "Titel",
        login_title_text: "  Bei Tidal anmelden",
        login_open_url: "  1. URL öffnen:",
        login_code_prefix: "  2. Code: ",
        login_waiting: "  Warte auf Autorisierung...",
        login_overlay_title: " ◈ Authentifizierung ",
        status_no_results: "Keine Ergebnisse",
        status_auth_done: "✓ Bei Tidal authentifiziert",
        status_login_required: "Zuerst mit 'L' anmelden",
        status_login_required_short: "Zuerst anmelden (L)",
        status_starting_login: "Anmeldung wird gestartet...",
        status_loading_lib: "⟳ Bibliothek wird geladen...",
        status_loading_playlist: "⟳ Playlist wird geladen...",
        status_loading_mix: "⟳ Mix wird geladen...",
        status_loading_fav_tracks: "⟳ Lieblingstitel werden geladen...",
        status_loading_fav_albums: "⟳ Lieblingsalben werden geladen...",
        status_session_loading: "Sitzung wird geladen...",
        status_session_active: "✓ Sitzung aktiv",
        status_press_l: "'L' drücken um sich bei Tidal anzumelden",
        status_added_to_queue: "▶ Zur Warteschlange hinzugefügt",
        status_already_in_queue: "Bereits in der Warteschlange",
        status_search_cleared: "Suche gelöscht",
    }
}

/// The Romanian texts.
pub open spec fn ro_texts() -> Strings {
    Strings {
        tab_search: "Caută",
        tab_queue: "Coadă",
        tab_now: "Acum",
        tab_library: "Bibliotecă",
        search_placeholder: "Apasă / pentru a căuta...",
        search_results_title: "Rezultate",
        search_sidebar_tracks: "Piese",
        search_sidebar_albums: "Albume",
        search_sidebar_artists: "Artiști",
        search_sidebar_playlists: "Playlisturi",
        search_no_tracks: "  Nicio piesă",
        search_no_albums: "  Niciun album",
        search_no_artists: "  Niciun artist",
        search_no_playlists: "  Niciun playlist",
        search_load_more_hint: "Încarcă mai mult",
        search_no_more_results: "Nu mai sunt rezultate",
        queue_title: "Coadă de redare",
        now_playing_empty: "Nimic nu rulează — apasă Enter pe o piesă",
        now_playing_title: "◈ Se redă acum",
        now_lyrics: "Versuri",
        now_no_lyrics: "Versuri indisponibile",
        loading_image: "⟳ Se încarcă\n  imaginea...",
        loading: "  ⟳ Se încarcă...",
        not_authenticated: "  Apasă L pentru a te autentifica în Tidal",
        no_results_hint: "  Niciun rezultat — caută cu /",
        col_title: "  Titlu",
        col_artist: "Artist",
        col_album: "Album",
        col_duration: "Dur.",
        player_stopped: "Nimic nu rulează",
        hint_play: "redă",
        hint_pause: "pauză",
        hint_next_prev: "urm/ant",
        hint_seek: "avans",
        hint_volume: "volum",
        hint_view: "vedere",
        hint_quality: "calitate",
        hint_quit: "ieșire",
        hint_library: "bibliotecă",
        hint_fav_tracks: "favorite",
        hint_fav_albums: "albume fav",
        hint_lang: "limbă",
        hint_add_queue: "adaugă coadă",
        hint_remove_queue: "elimină",
        hint_search_clear: "șterge căutarea",
        lib_playlists: "Playlisturi",
        lib_mixes: "Mixuri",
        lib_fav_tracks: "Favorite",
        lib_fav_albums: "Albume Fav",
        library_title: "Bibliotecă",
        fav_tracks_empty: "  Nicio piesă favorită",
        fav_albums_empty: "  Niciun album favorit",
        fav_albums_title: "Albume favorite",
        col_tracks: "Piese",
        login_title_text: "  Autentifică-te în Tidal",
        login_open_url: "  1. Deschide acest URL:",
        login_code_prefix: "  2. Cod: ",
        login_waiting: "  Se așteaptă autorizarea...",
        login_overlay_title: " ◈ Autentificare ",
        status_no_results: "Niciun rezultat",
        status_auth_done: "✓ Autentificat în Tidal",
        status_login_required: "Autentifică-te mai întâi cu 'L'",
        status_login_required_short: "Autentifică-te mai întâi (L)",
        status_starting_login: "Se inițiază autentificarea...",
        status_loading_lib: "⟳ Se încarcă biblioteca...",
        status_loading_playlist: "⟳ Se încarcă playlistul...",
        status_loading_mix: "⟳ Se încarcă mixul...",
        status_loading_fav_tracks: "⟳ Se încarcă piesele favorite...",
        status_loading_fav_albums: "⟳ Se încarcă albumele favorite...",
        status_session_loading: "Se încarcă sesiunea...",
        status_session_active: "✓ Sesiune activă",
        status_press_l: "Apasă 'L' pentru a te autentifica în Tidal",
        status_added_to_queue: "▶ Adăugat în coadă",
        status_already_in_queue: "Deja în coadă",
        status_search_cleared: "Căutare ștearsă",
    }
}

/// The fixed texts of a language.
pub open spec fn texts_of(lang: Lang) -> Strings {
    match lang {
        Lang::Es => es_texts(),
        Lang::En => en_texts(),
        Lang::De => de_texts(),
        Lang::Ro => ro_texts(),
    }
}

/// The language that follows `lang` in the cycle Es, En, De, Ro.
pub open spec fn next_lang(lang: Lang) -> Lang {
    match lang {
        Lang::Es => Lang::En,
        Lang::En => Lang::De,
        Lang::De => Lang::Ro,
        Lang::Ro => Lang::Es,
    }
}

/// The two-letter label of a language.
pub open spec fn lang_label(lang: Lang) -> Seq<char> {
    match lang {
        Lang::Es => "ES"@,
        Lang::En => "EN"@,
        Lang::De => "DE"@,
        Lang::Ro => "RO"@,
    }
}

/// The status line announcing `n` search results.
pub open spec fn results_count_text(lang: Lang, n: nat) -> Seq<char> {
    match lang {
        Lang::Es => decimal(n) + " resultados"@,
        Lang::En => decimal(n) + " results"@,
        Lang::De => decimal(n) + " Ergebnisse"@,
        Lang::Ro => decimal(n) + " rezultate"@,
    }
}

/// The status line reporting a failed search.
pub open spec fn search_error_text(lang: Lang, e: Seq<char>) -> Seq<char> {
    match lang {
        Lang::Es => "✗ Error búsqueda: "@ + e,
        Lang::En => "✗ Search error: "@ + e,
        Lang::De => "✗ Suchfehler: "@ + e,
        Lang::Ro => "✗ Eroare căutare: "@ + e,
    }
}

/// The status line reporting that a stream could not be obtained.
pub open spec fn stream_error_text(lang: Lang, e: Seq<char>) -> Seq<char> {
    match lang {
        Lang::Es => "✗ Error stream: "@ + e,
        Lang::En => "✗ Stream error: "@ + e,
        Lang::De => "✗ Stream-Fehler: "@ + e,
        Lang::Ro => "✗ Eroare stream: "@ + e,
    }
}

/// The status line shown while a search for `q` runs.
pub open spec fn searching_text(lang: Lang, q: Seq<char>) -> Seq<char> {
    match lang {
        Lang::Es => "Buscando \""@ + q + "\"..."@,
        Lang::En => "Searching \""@ + q + "\"..."@,
        Lang::De => "Suche \""@ + q + "\"..."@,
        Lang::Ro => "Se caută \""@ + q + "\"..."@,
    }
}

/// The status line shown while a further page of results loads.
pub open spec fn searching_more_text(lang: Lang) -> Seq<char> {
    match lang {
        Lang::Es => "Cargando más..."@,
        Lang::En => "Loading more..."@,
        Lang::De => "Lade mehr..."@,
        Lang::Ro => "Se încarcă mai mult..."@,
    }
}

/// The status line shown while the stream of `title` is requested.
pub open spec fn loading_stream_text(lang: Lang, title: Seq<char>) -> Seq<char> {
    match lang {
        Lang::Es => "⟳ Obteniendo stream: "@ + title + "..."@,
        Lang::En => "⟳ Getting stream: "@ + title + "..."@,
        Lang::De => "⟳ Stream wird geladen: "@ + title + "..."@,
        Lang::Ro => "⟳ Se obține stream: "@ + title + "..."@,
    }
}

/// The status line shown once the login page was opened; it repeats the user code.
pub open spec fn browser_opened_text(lang: Lang, code: Seq<char>) -> Seq<char> {
    match lang {
        Lang::Es => "Browser abierto. Código: "@ + code,
        Lang::En => "Browser opened. Code: "@ + code,
        Lang::De => "Browser geöffnet. Code: "@ + code,
        Lang::Ro => "Browser deschis. Cod: "@ + code,
    }
}

/// The status line shown when no browser could be opened: the error and the address.
pub open spec fn browser_failed_text(lang: Lang, e: Seq<char>, url: Seq<char>) -> Seq<char> {
    match lang {
        Lang::Es => "No se pudo abrir browser ("@ + e + "): "@ + url,
        Lang::En => "Could not open browser ("@ + e + "): "@ + url,
        Lang::De => "Browser konnte nicht geöffnet werden ("@ + e + "): "@ + url,
        Lang::Ro => "Nu s-a putut deschide browser-ul ("@ + e + "): "@ + url,
    }
}

/// The status line reporting a failed login.
pub open spec fn auth_error_text(lang: Lang, e: Seq<char>) -> Seq<char> {
    match lang {
        Lang::Es => "✗ Error auth: "@ + e,
        Lang::En => "✗ Auth error: "@ + e,
        Lang::De => "✗ Auth-Fehler: "@ + e,
        Lang::Ro => "✗ Eroare autentificare: "@ + e,
    }
}

/// The status line summing up a loaded library.
pub open spec fn library_loaded_text(lang: Lang, playlists: nat, mixes: nat) -> Seq<char> {
    match lang {
        Lang::Es => "✓ "@ + decimal(playlists) + " playlists, "@ + decimal(mixes) + " mixes"@,
        Lang::En => "✓ "@ + decimal(playlists) + " playlists, "@ + decimal(mixes) + " mixes"@,
        Lang::De => "✓ "@ + decimal(playlists) + " Playlists, "@ + decimal(mixes) + " Mixes"@,
        Lang::Ro => "✓ "@ + decimal(playlists) + " playlisturi, "@ + decimal(mixes) + " mixuri"@,
    }
}

/// The status line announcing `n` loaded tracks.
pub open spec fn tracks_loaded_text(lang: Lang, n: nat) -> Seq<char> {
    match lang {
        Lang::Es => "✓ "@ + decimal(n) + " tracks cargados"@,
        Lang::En => "✓ "@ + decimal(n) + " tracks loaded"@,
        Lang::De => "✓ "@ + decimal(n) + " Titel geladen"@,
        Lang::Ro => "✓ "@ + decimal(n) + " piese încărcate"@,
    }
}

/// The status line announcing `n` favourite tracks.
pub open spec fn fav_tracks_loaded_text(lang: Lang, n: nat) -> Seq<char> {
    match lang {
        Lang::Es => "✓ "@ + decimal(n) + " canciones favoritas en cola"@,
        Lang::En => "✓ "@ + decimal(n) + " favorite tracks in queue"@,
        Lang::De => "✓ "@ + decimal(n) + " Lieblingstitel in der Warteschlange"@,
        Lang::Ro => "✓ "@ + decimal(n) + " piese favorite în coadă"@,
    }
}

/// The status line announcing `n` favourite albums.
pub open spec fn fav_albums_loaded_text(lang: Lang, n: nat) -> Seq<char> {
    match lang {
        Lang::Es => "✓ "@ + decimal(n) + " álbumes en colección"@,
        Lang::En => "✓ "@ + decimal(n) + " albums in collection"@,
        Lang::De => "✓ "@ + decimal(n) + " Alben in der Sammlung"@,
        Lang::Ro => "✓ "@ + decimal(n) + " albume în colecție"@,
    }
}

/// The status line confirming a change of audio quality.
pub open spec fn quality_changed_text(lang: Lang, label: Seq<char>) -> Seq<char> {
    match lang {
        Lang::Es => "Calidad: "@ + label,
        Lang::En => "Quality: "@ + label,
        Lang::De => "Qualität: "@ + label,
        Lang::Ro => "Calitate: "@ + label,
    }
}

/// The status line shown while the album `title` loads.
pub open spec fn loading_album_text(lang: Lang, title: Seq<char>) -> Seq<char> {
    match lang {
        Lang::Es => "⟳ Cargando "@ + title + "..."@,
        Lang::En => "⟳ Loading "@ + title + "..."@,
        Lang::De => "⟳ "@ + title + " wird geladen..."@,
        Lang::Ro => "⟳ Se încarcă "@ + title + "..."@,
    }
}

/// The title of the favourite-albums table holding `n` albums.
pub open spec fn fav_albums_title_with_count_text(lang: Lang, n: nat) -> Seq<char> {
    match lang {
        Lang::Es => " ◆ Álbumes favoritos ("@ + decimal(n) + ") — Enter para cargar "@,
        Lang::En => " ◆ Favorite Albums ("@ + decimal(n) + ") — Enter to load "@,
        Lang::De => " ◆ Lieblingsalben ("@ + decimal(n) + ") — Enter zum Laden "@,
        Lang::Ro => " ◆ Albume favorite ("@ + decimal(n) + ") — Enter pentru a încărca "@,
    }
}

/// A count of `n` tracks.
pub open spec fn tracks_count_text(lang: Lang, n: nat) -> Seq<char> {
    match lang {
        Lang::Es => decimal(n) + " tracks"@,
        Lang::En => decimal(n) + " tracks"@,
        Lang::De => decimal(n) + " Titel"@,
        Lang::Ro => decimal(n) + " piese"@,
    }
}

/// The status line confirming the language that is now in use.
pub open spec fn lang_changed_text(lang: Lang) -> Seq<char> {
    match lang {
        Lang::Es => "Idioma: Español"@,
        Lang::En => "Language: English"@,
        Lang::De => "Sprache: Deutsch"@,
        Lang::Ro => "Limbă: Română"@,
    }
}

fn es_strings() -> (s: Strings)
    ensures
        s == es_texts(),
{
    Strings {
        tab_search: "Buscar",
        tab_queue: "Cola",
        tab_now: "Ahora",
        tab_library: "Biblioteca",
        search_placeholder: "Presiona / para buscar...",
        search_results_title: "Resultados",
        search_sidebar_tracks: "Canciones",
        search_sidebar_albums: "Álbumes",
        search_sidebar_artists: "Artistas",
        search_sidebar_playlists: "Listas",
        search_no_tracks: "  Sin canciones",
        search_no_albums: "  Sin álbumes",
        search_no_artists: "  Sin artistas",
        search_no_playlists: "  Sin listas",
        search_load_more_hint: "Cargar más",
        search_no_more_results: "Sin más resultados",
        queue_title: "Cola de reproducción",
        now_playing_empty: "Sin reproducción — presiona Enter en una canción",
        now_playing_title: "◈ Ahora reproduciendo",
        now_lyrics: "Letras",
        now_no_lyrics: "Letras no disponibles",
        loading_image: "⟳ Cargando\n  imagen...",
        loading: "  ⟳ Cargando...",
        not_authenticated: "  Presiona L para iniciar sesión en Tidal",
        no_results_hint: "  Sin resultados — busca con /",
        col_title: "  Título",
        col_artist: "Artista",
        col_album: "Álbum",
        col_duration: "Dur.",
        player_stopped: "Sin reproducción",
        hint_play: "reproducir",
        hint_pause: "pausa",
        hint_next_prev: "sig/ant",
        hint_seek: "seek",
        hint_volume: "volumen",
        hint_view: "vista",
        hint_quality: "calidad",
        hint_quit: "salir",
        hint_library: "biblioteca",
        hint_fav_tracks: "favoritos",
        hint_fav_albums: "álbumes fav",
        hint_lang: "idioma",
        hint_add_queue: "añadir cola",
        hint_remove_queue: "eliminar",
        hint_search_clear: "limpiar búsqueda",
        lib_playlists: "Listas",
        lib_mixes: "Mixes",
        lib_fav_tracks: "Favoritos",
        lib_fav_albums: "Álbumes Fav",
        library_title: "Biblioteca",
        fav_tracks_empty: "  Sin canciones favoritas",
        fav_albums_empty: "  Sin álbumes favoritos",
        fav_albums_title: "Álbumes favoritos",
        col_tracks: "Tracks",
        login_title_text: "  Inicia sesión en Tidal",
        login_open_url: "  1. Abre este URL:",
        login_code_prefix: "  2. Código: ",
        login_waiting: "  Esperando autorización...",
        login_overlay_title: " ◈ Autenticación ",
        status_no_results: "Sin resultados",
        status_auth_done: "✓ Autenticado con Tidal",
        status_login_required: "Primero inicia sesión con 'L'",
        status_login_required_short: "Inicia sesión primero (L)",
        status_starting_login: "Iniciando login...",
        status_loading_lib: "⟳ Cargando biblioteca...",
        status_loading_playlist: "⟳ Cargando playlist...",
        status_loading_mix: "⟳ Cargando mix...",
        status_loading_fav_tracks: "⟳ Cargando canciones favoritas...",
        status_loading_fav_albums: "⟳ Cargando álbumes favoritos...",
        status_session_loading: "Cargando sesión...",
        status_session_active: "✓ Sesión activa",
        status_press_l: "Presiona 'L' para iniciar sesión en Tidal",
        status_added_to_queue: "▶ Añadido a la cola",
        status_already_in_queue: "Ya está en la cola",
        status_search_cleared: "Búsqueda limpiada",
    }
}

fn en_strings() -> (s: Strings)
    ensures
        s == en_texts(),
{
    Strings {
        tab_search: "Search",
        tab_queue: "Queue",
        tab_now: "Now",
        tab_library: "Library",
        search_placeholder: "Press / to search...",
        search_results_title: "Results",
        search_sidebar_tracks: "Tracks",
        search_sidebar_albums: "Albums",
        search_sidebar_artists: "Artists",
        search_sidebar_playlists: "Playlists",
        search_no_tracks: "  No tracks",
        search_no_albums: "  No albums",
        search_no_artists: "  No artists",
        search_no_playlists: "  No playlists",
        search_load_more_hint: "Load more",
        search_no_more_results: "No more results",
        queue_title: "Playback Queue",
        now_playing_empty: "Nothing playing — press Enter on a track",
        now_playing_title: "◈ Now Playing",
        now_lyrics: "Lyrics",
        now_no_lyrics: "Lyrics not available",
        loading_image: "⟳ Loading\n  image...",
        loading: "  ⟳ Loading...",
        not_authenticated: "  Press L to log in to Tidal",
        no_results_hint: "  No results — search with /",
        col_title: "  Title",
        col_artist: "Artist",
        col_album: "Album",
        col_duration: "Dur.",
        player_stopped: "Nothing playing",
        hint_play: "play",
        hint_pause: "pause",
        hint_next_prev: "next/prev",
        hint_seek: "seek",
        hint_volume: "volume",
        hint_view: "view",
        hint_quality: "quality",
        hint_quit: "quit",
        hint_library: "library",
        hint_fav_tracks: "favorites",
        hint_fav_albums: "fav albums",
        hint_lang: "language",
        hint_add_queue: "add queue",
        hint_remove_queue: "remove",
        hint_search_clear: "clear search",
        lib_playlists: "Playlists",
        lib_mixes: "Mixes",
        lib_fav_tracks: "Favorites",
        lib_fav_albums: "Fav Albums",
        library_title: "Library",
        fav_tracks_empty: "  No favorite tracks",
        fav_albums_empty: "  No favorite albums",
        fav_albums_title: "Favorite Albums",
        col_tracks: "Tracks",
        login_title_text: "  Log in to Tidal",
        login_open_url: "  1. Open this URL:",
        login_code_prefix: "  2. Code: ",
        login_waiting: "  Waiting for authorization...",
        login_overlay_title: " ◈ Authentication ",
        status_no_results: "No results",
        status_auth_done: "✓ Authenticated with Tidal",
        status_login_required: "Log in first with 'L'",
        status_login_required_short: "Log in first (L)",
        status_starting_login: "Starting login...",
        status_loading_lib: "⟳ Loading library...",
        status_loading_playlist: "⟳ Loading playlist...",
        status_loading_mix: "⟳ Loading mix...",
        status_loading_fav_tracks: "⟳ Loading favorite tracks...",
        status_loading_fav_albums: "⟳ Loading favorite albums...",
        status_session_loading: "Loading session...",
        status_session_active: "✓ Session active",
        status_press_l: "Press 'L' to log in to Tidal",
        status_added_to_queue: "▶ Added to queue",
        status_already_in_queue: "Already in queue",
        status_search_cleared: "Search cleared",
    }
}

fn de_strings() -> (s: Strings)
    ensures
        s == de_texts(),
{
    Strings {
        tab_search: "Suchen",
        tab_queue: "Warteschl.",
        tab_now: "Jetzt",
        tab_library: "Bibliothek",
        search_placeholder: "/ zum Suchen drücken...",
        search_results_title: "Ergebnisse",
        search_sidebar_tracks: "Lieder",
        search_sidebar_albums: "Alben",
        search_sidebar_artists: "Künstler",
        search_sidebar_playlists: "Playlists",
        search_no_tracks: "  Keine Lieder",
        search_no_albums: "  Keine Alben",
        search_no_artists: "  Keine Künstler",
        search_no_playlists: "  Keine Playlists",
        search_load_more_hint: "Mehr laden",
        search_no_more_results: "Keine weiteren Ergebnisse",
        queue_title: "Wiedergabeliste",
        now_playing_empty: "Keine Wiedergabe — Enter auf einem Titel drücken",
        now_playing_title: "◈ Jetzt läuft",
        now_lyrics: "Text",
        now_no_lyrics: "Kein Text verfügbar",
        loading_image: "⟳ Lädt\n  Bild...",
        loading: "  ⟳ Lädt...",
        not_authenticated: "  L drücken um sich bei Tidal anzumelden",
        no_results_hint: "  Keine Ergebnisse — suche mit /",
        col_title: "  Titel",
        col_artist: "Künstler",
        col_album: "Album",
        col_duration: "Dauer",
        player_stopped: "Keine Wiedergabe",
        hint_play: "abspielen",
        hint_pause: "pause",
        hint_next_prev: "vor/zurück",
        hint_seek: "spulen",
        hint_volume: "Lautstärke",
        hint_view: "Ansicht",
        hint_quality: "Qualität",
        hint_quit: "beenden",
        hint_library: "Bibliothek",
        hint_fav_tracks: "Favoriten",
        hint_fav_albums: "Fav-Alben",
        hint_lang: "Sprache",
        hint_add_queue: "hinzufügen",
        hint_remove_queue: "entfernen",
        hint_search_clear: "Suche löschen",
        lib_playlists: "Playlists",
        lib_mixes: "Mixes",
        lib_fav_tracks: "Favoriten",
        lib_fav_albums: "Fav-Alben",
        library_title: "Bibliothek",
        fav_tracks_empty: "  Keine Lieblingstitel",
        fav_albums_empty: "  Keine Lieblingsalben",
        fav_albums_title: "Lieblingsalben",
        col_tracks: "Titel",
        login_title_text: "  Bei Tidal anmelden",
        login_open_url: "  1. URL öffnen:",
        login_code_prefix: "  2. Code: ",
        login_waiting: "  Warte auf Autorisierung...",
        login_overlay_title: " ◈ Authentifizierung ",
        status_no_results: "Keine Ergebnisse",
        status_auth_done: "✓ Bei Tidal authentifiziert",
        status_login_required: "Zuerst mit 'L' anmelden",
        status_login_required_short: "Zuerst anmelden (L)",
        status_starting_login: "Anmeldung wird gestartet...",
        status_loading_lib: "⟳ Bibliothek wird geladen...",
        status_loading_playlist: "⟳ Playlist wird geladen...",
        status_loading_mix: "⟳ Mix wird geladen...",
        status_loading_fav_tracks: "⟳ Lieblingstitel werden geladen...",
        status_loading_fav_albums: "⟳ Lieblingsalben werden geladen...",
        status_session_loading: "Sitzung wird geladen...",
        status_session_active: "✓ Sitzung aktiv",
        status_press_l: "'L' drücken um sich bei Tidal anzumelden",
        status_added_to_queue: "▶ Zur Warteschlange hinzugefügt",
        status_already_in_queue: "Bereits in der Warteschlange",
        status_search_cleared: "Suche gelöscht",
    }
}

fn ro_strings() -> (s: Strings)
    ensures
        s == ro_texts(),
{
    Strings {
        tab_search: "Caută",
        tab_queue: "Coadă",
        tab_now: "Acum",
        tab_library: "Bibliotecă",
        search_placeholder: "Apasă / pentru a căuta...",
        search_results_title: "Rezultate",
        search_sidebar_tracks: "Piese",
        search_sidebar_albums: "Albume",
        search_sidebar_artists: "Artiști",
        search_sidebar_playlists: "Playlisturi",
        search_no_tracks: "  Nicio piesă",
        search_no_albums: "  Niciun album",
        search_no_artists: "  Niciun artist",
        search_no_playlists: "  Niciun playlist",
        search_load_more_hint: "Încarcă mai mult",
        search_no_more_results: "Nu mai sunt rezultate",
        queue_title: "Coadă de redare",
        now_playing_empty: "Nimic nu rulează — apasă Enter pe o piesă",
        now_playing_title: "◈ Se redă acum",
        now_lyrics: "Versuri",
        now_no_lyrics: "Versuri indisponibile",
        loading_image: "⟳ Se încarcă\n  imaginea...",
        loading: "  ⟳ Se încarcă...",
        not_authenticated: "  Apasă L pentru a te autentifica în Tidal",
        no_results_hint: "  Niciun rezultat — caută cu /",
        col_title: "  Titlu",
        col_artist: "Artist",
        col_album: "Album",
        col_duration: "Dur.",
        player_stopped: "Nimic nu rulează",
        hint_play: "redă",
        hint_pause: "pauză",
        hint_next_prev: "urm/ant",
        hint_seek: "avans",
        hint_volume: "volum",
        hint_view: "vedere",
        hint_quality: "calitate",
        hint_quit: "ieșire",
        hint_library: "bibliotecă",
        hint_fav_tracks: "favorite",
        hint_fav_albums: "albume fav",
        hint_lang: "limbă",
        hint_add_queue: "adaugă coadă",
        hint_remove_queue: "elimină",
        hint_search_clear: "șterge căutarea",
        lib_playlists: "Playlisturi",
        lib_mixes: "Mixuri",
        lib_fav_tracks: "Favorite",
        lib_fav_albums: "Albume Fav",
        library_title: "Bibliotecă",
        fav_tracks_empty: "  Nicio piesă favorită",
        fav_albums_empty: "  Niciun album favorit",
        fav_albums_title: "Albume favorite",
        col_tracks: "Piese",
        login_title_text: "  Autentifică-te în Tidal",
        login_open_url: "  1. Deschide acest URL:",
        login_code_prefix: "  2. Cod: ",
        login_waiting: "  Se așteaptă autorizarea...",
        login_overlay_title: " ◈ Autentificare ",
        status_no_results: "Niciun rezultat",
        status_auth_done: "✓ Autentificat în Tidal",
        status_login_required: "Autentifică-te mai întâi cu 'L'",
        status_login_required_short: "Autentifică-te mai întâi (L)",
        status_starting_login: "Se inițiază autentificarea...",
        status_loading_lib: "⟳ Se încarcă biblioteca...",
        status_loading_playlist: "⟳ Se încarcă playlistul...",
        status_loading_mix: "⟳ Se încarcă mixul...",
        status_loading_fav_tracks: "⟳ Se încarcă piesele favorite...",
        status_loading_fav_albums: "⟳ Se încarcă albumele favorite...",
        status_session_loading: "Se încarcă sesiunea...",
        status_session_active: "✓ Sesiune activă",
        status_press_l: "Apasă 'L' pentru a te autentifica în Tidal",
        status_added_to_queue: "▶ Adăugat în coadă",
        status_already_in_queue: "Deja în coadă",
        status_search_cleared: "Căutare ștearsă",
    }
}

impl Lang {
    /// The fixed texts of this language.
    pub fn strings(self) -> (s: Strings)
        ensures
            s == texts_of(self),
    {
        match self {
            Lang::Es => es_strings(),
            Lang::En => en_strings(),
            Lang::De => de_strings(),
            Lang::Ro => ro_strings(),
        }
    }

    /// The next language of the cycle Es, En, De, Ro, Es.
    pub fn cycle(self) -> (l: Lang)
        ensures
            l == next_lang(self),
    {
        match self {
            Lang::Es => Lang::En,
            Lang::En => Lang::De,
            Lang::De => Lang::Ro,
            Lang::Ro => Lang::Es,
        }
    }

    /// The two-letter label of this language.
    pub fn label(self) -> (s: &'static str)
        ensures
            s@ == lang_label(self),
    {
        match self {
            Lang::Es => "ES",
            Lang::En => "EN",
            Lang::De => "DE",
            Lang::Ro => "RO",
        }
    }

    /// Status line for a search that returned `n` results.
    pub fn results_count(self, n: usize) -> (s: String)
        ensures
            s@ == results_count_text(self, n as nat),
    {
        match self {
            Lang::Es => {
                let mut s = String::new();
                push_decimal(&mut s, n as u64);
                s.append(" resultados");
                s
            },
            Lang::En => {
                let mut s = String::new();
                push_decimal(&mut s, n as u64);
                s.append(" results");
                s
            },
            Lang::De => {
                let mut s = String::new();
                push_decimal(&mut s, n as u64);
                s.append(" Ergebnisse");
                s
            },
            Lang::Ro => {
                let mut s = String::new();
                push_decimal(&mut s, n as u64);
                s.append(" rezultate");
                s
            },
        }
    }

    /// Status line for a failed search.
    pub fn search_error(self, e: &str) -> (s: String)
        ensures
            s@ == search_error_text(self, e@),
    {
        match self {
            Lang::Es => {
                let mut s = String::new();
                s.append("✗ Error búsqueda: ");
                s.append(e);
                s
            },
            Lang::En => {
                let mut s = String::new();
                s.append("✗ Search error: ");
                s.append(e);
                s
            },
            Lang::De => {
                let mut s = String::new();
                s.append("✗ Suchfehler: ");
                s.append(e);
                s
            },
            Lang::Ro => {
                let mut s = String::new();
                s.append("✗ Eroare căutare: ");
                s.append(e);
                s
            },
        }
    }

    /// Status line for a stream that could not be obtained.
    pub fn stream_error(self, e: &str) -> (s: String)
        ensures
            s@ == stream_error_text(self, e@),
    {
        match self {
            Lang::Es => {
                let mut s = String::new();
                s.append("✗ Error stream: ");
                s.append(e);
                s
            },
            Lang::En => {
                let mut s = String::new();
                s.append("✗ Stream error: ");
                s.append(e);
                s
            },
            Lang::De => {
                let mut s = String::new();
                s.append("✗ Stream-Fehler: ");
                s.append(e);
                s
            },
            Lang::Ro => {
                let mut s = String::new();
                s.append("✗ Eroare stream: ");
                s.append(e);
                s
            },
        }
    }

    /// Status line while a search runs.
    pub fn searching(self, q: &str) -> (s: String)
        ensures
            s@ == searching_text(self, q@),
    {
        match self {
            Lang::Es => {
                let mut s = String::new();
                s.append("Buscando \"");
                s.append(q);
                s.append("\"...");
                s
            },
            Lang::En => {
                let mut s = String::new();
                s.append("Searching \"");
                s.append(q);
                s.append("\"...");
                s
            },
            Lang::De => {
                let mut s = String::new();
                s.append("Suche \"");
                s.append(q);
                s.append("\"...");
                s
            },
            Lang::Ro => {
                let mut s = String::new();
                s.append("Se caută \"");
                s.append(q);
                s.append("\"...");
                s
            },
        }
    }

    /// Status line while a further page loads; the query is not shown.
    pub fn searching_more(self, _q: &str) -> (s: String)
        ensures
            s@ == searching_more_text(self),
    {
        match self {
            Lang::Es => {
                let mut s = String::new();
                s.append("Cargando más...");
                s
            },
            Lang::En => {
                let mut s = String::new();
                s.append("Loading more...");
                s
            },
            Lang::De => {
                let mut s = String::new();
                s.append("Lade mehr...");
                s
            },
            Lang::Ro => {
                let mut s = String::new();
                s.append("Se încarcă mai mult...");
                s
            },
        }
    }

    /// Status line while a stream is requested.
    pub fn loading_stream(self, title: &str) -> (s: String)
        ensures
            s@ == loading_stream_text(self, title@),
    {
        match self {
            Lang::Es => {
                let mut s = String::new();
                s.append("⟳ Obteniendo stream: ");
                s.append(title);
                s.append("...");
                s
            },
            Lang::En => {
                let mut s = String::new();
                s.append("⟳ Getting stream: ");
                s.append(title);
                s.append("...");
                s
            },
            Lang::De => {
                let mut s = String::new();
                s.append("⟳ Stream wird geladen: ");
                s.append(title);
                s.append("...");
                s
            },
            Lang::Ro => {
                let mut s = String::new();
                s.append("⟳ Se obține stream: ");
                s.append(title);
                s.append("...");
                s
            },
        }
    }

    /// Status line once the login page is open.
    pub fn browser_opened(self, code: &str) -> (s: String)
        ensures
            s@ == browser_opened_text(self, code@),
    {
        match self {
            Lang::Es => {
                let mut s = String::new();
                s.append("Browser abierto. Código: ");
                s.append(code);
                s
            },
            Lang::En => {
                let mut s = String::new();
                s.append("Browser opened. Code: ");
                s.append(code);
                s
            },
            Lang::De => {
                let mut s = String::new();
                s.append("Browser geöffnet. Code: ");
                s.append(code);
                s
            },
            Lang::Ro => {
                let mut s = String::new();
                s.append("Browser deschis. Cod: ");
                s.append(code);
                s
            },
        }
    }

    /// Status line when the login page could not be opened.
    pub fn browser_failed(self, e: &str, url: &str) -> (s: String)
        ensures
            s@ == browser_failed_text(self, e@, url@),
    {
        match self {
            Lang::Es => {
                let mut s = String::new();
                s.append("No se pudo abrir browser (");
                s.append(e);
                s.append("): ");
                s.append(url);
                s
            },
            Lang::En => {
                let mut s = String::new();
                s.append("Could not open browser (");
                s.append(e);
                s.append("): ");
                s.append(url);
                s
            },
            Lang::De => {
                let mut s = String::new();
                s.append("Browser konnte nicht geöffnet werden (");
                s.append(e);
                s.append("): ");
                s.append(url);
                s
            },
            Lang::Ro => {
                let mut s = String::new();
                s.append("Nu s-a putut deschide browser-ul (");
                s.append(e);
                s.append("): ");
                s.append(url);
                s
            },
        }
    }

    /// Status line for a failed login.
    pub fn auth_error(self, e: &str) -> (s: String)
        ensures
            s@ == auth_error_text(self, e@),
    {
        match self {
            Lang::Es => {
                let mut s = String::new();
                s.append("✗ Error auth: ");
                s.append(e);
                s
            },
            Lang::En => {
                let mut s = String::new();
                s.append("✗ Auth error: ");
                s.append(e);
                s
            },
            Lang::De => {
                let mut s = String::new();
                s.append("✗ Auth-Fehler: ");
                s.append(e);
                s
            },
            Lang::Ro => {
                let mut s = String::new();
                s.append("✗ Eroare autentificare: ");
                s.append(e);
                s
            },
        }
    }

    /// Status line for a loaded library.
    pub fn library_loaded(self, playlists: usize, mixes: usize) -> (s: String)
        ensures
            s@ == library_loaded_text(self, playlists as nat, mixes as nat),
    {
        match self {
            Lang::Es => {
                let mut s = String::new();
                s.append("✓ ");
                push_decimal(&mut s, playlists as u64);
                s.append(" playlists, ");
                push_decimal(&mut s, mixes as u64);
                s.append(" mixes");
                s
            },
            Lang::En => {
                let mut s = String::new();
                s.append("✓ ");
                push_decimal(&mut s, playlists as u64);
                s.append(" playlists, ");
                push_decimal(&mut s, mixes as u64);
                s.append(" mixes");
                s
            },
            Lang::De => {
                let mut s = String::new();
                s.append("✓ ");
                push_decimal(&mut s, playlists as u64);
                s.append(" Playlists, ");
                push_decimal(&mut s, mixes as u64);
                s.append(" Mixes");
                s
            },
            Lang::Ro => {
                let mut s = String::new();
                s.append("✓ ");
                push_decimal(&mut s, playlists as u64);
                s.append(" playlisturi, ");
                push_decimal(&mut s, mixes as u64);
                s.append(" mixuri");
                s
            },
        }
    }

    /// Status line for loaded tracks.
    pub fn tracks_loaded(self, n: usize) -> (s: String)
        ensures
            s@ == tracks_loaded_text(self, n as nat),
    {
        match self {
            Lang::Es => {
                let mut s = String::new();
                s.append("✓ ");
                push_decimal(&mut s, n as u64);
                s.append(" tracks cargados");
                s
            },
            Lang::En => {
                let mut s = String::new();
                s.append("✓ ");
                push_decimal(&mut s, n as u64);
                s.append(" tracks loaded");
                s
            },
            Lang::De => {
                let mut s = String::new();
                s.append("✓ ");
                push_decimal(&mut s, n as u64);
                s.append(" Titel geladen");
                s
            },
            Lang::Ro => {
                let mut s = String::new();
                s.append("✓ ");
                push_decimal(&mut s, n as u64);
                s.append(" piese încărcate");
                s
            },
        }
    }

    /// Status line for loaded favourite tracks.
    pub fn fav_tracks_loaded(self, n: usize) -> (s: String)
        ensures
            s@ == fav_tracks_loaded_text(self, n as nat),
    {
        match self {
            Lang::Es => {
                let mut s = String::new();
                s.append("✓ ");
                push_decimal(&mut s, n as u64);
                s.append(" canciones favoritas en cola");
                s
            },
            Lang::En => {
                let mut s = String::new();
                s.append("✓ ");
                push_decimal(&mut s, n as u64);
                s.append(" favorite tracks in queue");
                s
            },
            Lang::De => {
                let mut s = String::new();
                s.append("✓ ");
                push_decimal(&mut s, n as u64);
                s.append(" Lieblingstitel in der Warteschlange");
                s
            },
            Lang::Ro => {
                let mut s = String::new();
                s.append("✓ ");
                push_decimal(&mut s, n as u64);
                s.append(" piese favorite în coadă");
                s
            },
        }
    }

    /// Status line for loaded favourite albums.
    pub fn fav_albums_loaded(self, n: usize) -> (s: String)
        ensures
            s@ == fav_albums_loaded_text(self, n as nat),
    {
        match self {
            Lang::Es => {
                let mut s = String::new();
                s.append("✓ ");
                push_decimal(&mut s, n as u64);
                s.append(" álbumes en colección");
                s
            },
            Lang::En => {
                let mut s = String::new();
                s.append("✓ ");
                push_decimal(&mut s, n as u64);
                s.append(" albums in collection");
                s
            },
            Lang::De => {
                let mut s = String::new();
                s.append("✓ ");
                push_decimal(&mut s, n as u64);
                s.append(" Alben in der Sammlung");
                s
            },
            Lang::Ro => {
                let mut s = String::new();
                s.append("✓ ");
                push_decimal(&mut s, n as u64);
                s.append(" albume în colecție");
                s
            },
        }
    }

    /// Status line for a new audio quality.
    pub fn quality_changed(self, label: &str) -> (s: String)
        ensures
            s@ == quality_changed_text(self, label@),
    {
        match self {
            Lang::Es => {
                let mut s = String::new();
                s.append("Calidad: ");
                s.append(label);
                s
            },
            Lang::En => {
                let mut s = String::new();
                s.append("Quality: ");
                s.append(label);
                s
            },
            Lang::De => {
                let mut s = String::new();
                s.append("Qualität: ");
                s.append(label);
                s
            },
            Lang::Ro => {
                let mut s = String::new();
                s.append("Calitate: ");
                s.append(label);
                s
            },
        }
    }

    /// Status line while an album loads.
    pub fn loading_album(self, title: &str) -> (s: String)
        ensures
            s@ == loading_album_text(self, title@),
    {
        match self {
            Lang::Es => {
                let mut s = String::new();
                s.append("⟳ Cargando ");
                s.append(title);
                s.append("...");
                s
            },
            Lang::En => {
                let mut s = String::new();
                s.append("⟳ Loading ");
                s.append(title);
                s.append("...");
                s
            },
            Lang::De => {
                let mut s = String::new();
                s.append("⟳ ");
                s.append(title);
                s.append(" wird geladen...");
                s
            },
            Lang::Ro => {
                let mut s = String::new();
                s.append("⟳ Se încarcă ");
                s.append(title);
                s.append("...");
                s
            },
        }
    }

    /// Title of the favourite-albums table.
    pub fn fav_albums_title_with_count(self, n: usize) -> (s: String)
        ensures
            s@ == fav_albums_title_with_count_text(self, n as nat),
    {
        match self {
            Lang::Es => {
                let mut s = String::new();
                s.append(" ◆ Álbumes favoritos (");
                push_decimal(&mut s, n as u64);
                s.append(") — Enter para cargar ");
                s
            },
            Lang::En => {
                let mut s = String::new();
                s.append(" ◆ Favorite Albums (");
                push_decimal(&mut s, n as u64);
                s.append(") — Enter to load ");
                s
            },
            Lang::De => {
                let mut s = String::new();
                s.append(" ◆ Lieblingsalben (");
                push_decimal(&mut s, n as u64);
                s.append(") — Enter zum Laden ");
                s
            },
            Lang::Ro => {
                let mut s = String::new();
                s.append(" ◆ Albume favorite (");
                push_decimal(&mut s, n as u64);
                s.append(") — Enter pentru a încărca ");
                s
            },
        }
    }

    /// A count of tracks.
    pub fn tracks_count(self, n: u32) -> (s: String)
        ensures
            s@ == tracks_count_text(self, n as nat),
    {
        match self {
            Lang::Es => {
                let mut s = String::new();
                push_decimal(&mut s, n as u64);
                s.append(" tracks");
                s
            },
            Lang::En => {
                let mut s = String::new();
                push_decimal(&mut s, n as u64);
                s.append(" tracks");
                s
            },
            Lang::De => {
                let mut s = String::new();
                push_decimal(&mut s, n as u64);
                s.append(" Titel");
                s
            },
            Lang::Ro => {
                let mut s = String::new();
                push_decimal(&mut s, n as u64);
                s.append(" piese");
                s
            },
        }
    }

    /// Status line naming the language now in use.
    pub fn lang_changed(self) -> (s: String)
        ensures
            s@ == lang_changed_text(self),
    {
        match self {
            Lang::Es => {
                let mut s = String::new();
                s.append("Idioma: Español");
                s
            },
            Lang::En => {
                let mut s = String::new();
                s.append("Language: English");
                s
            },
            Lang::De => {
                let mut s = String::new();
                s.append("Sprache: Deutsch");
                s
            },
            Lang::Ro => {
                let mut s = String::new();
                s.append("Limbă: Română");
                s
            },
        }
    }
}

/// Cycling through the languages comes back to the start after four steps,
/// and visits every language on the way.
pub proof fn lemma_cycle_period(lang: Lang)
    ensures
        next_lang(next_lang(next_lang(next_lang(lang)))) == lang,
        next_lang(lang) != lang,
        next_lang(next_lang(lang)) != lang,
        next_lang(next_lang(next_lang(lang))) != lang,
{
}

} // verus!
