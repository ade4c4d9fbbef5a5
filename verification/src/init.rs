//! Application metadata: the kind of program being run.

use vstd::prelude::*;

verus! {

/// The kind of application, as recorded in the application metadata.
#[derive(Clone, Copy, PartialEq, Eq, Debug, Structural)]
pub enum AppKind {
    Game,
    MediaPlayer,
    Application,
}

/// The metadata text of each kind.
pub open spec fn app_kind_text(k: AppKind) -> Seq<char> {
    match k {
        AppKind::Game => seq!['g', 'a', 'm', 'e'],
        AppKind::MediaPlayer => seq!['m', 'e', 'd', 'i', 'a', 'p', 'l', 'a', 'y', 'e', 'r'],
        AppKind::Application => seq!['a', 'p', 'p', 'l', 'i', 'c', 'a', 't', 'i', 'o', 'n'],
    }
}

/// The metadata text of each kind is the word SDL documents for it:
/// "game", "mediaplayer" and "application".
pub proof fn lemma_app_kind_texts()
    ensures
        app_kind_text(AppKind::Game) == "game"@,
        app_kind_text(AppKind::MediaPlayer) == "mediaplayer"@,
        app_kind_text(AppKind::Application) == "application"@,
{
    reveal_strlit("game");
    reveal_strlit("mediaplayer");
    reveal_strlit("application");
    assert(app_kind_text(AppKind::Game) =~= "game"@);
    assert(app_kind_text(AppKind::MediaPlayer) =~= "mediaplayer"@);
    assert(app_kind_text(AppKind::Application) =~= "application"@);
}

/// The bytes of the metadata text of each kind (all of it ASCII).
pub open spec fn app_kind_bytes(k: AppKind) -> Seq<u8> {
    app_kind_text(k).map_values(|c: char| c as u8)
}

/// The kind whose metadata text has the bytes `b`, if any.
pub open spec fn app_kind_of_bytes(b: Seq<u8>) -> Option<AppKind> {
    if b == app_kind_bytes(AppKind::Game) {
        Some(AppKind::Game)
    } else if b == app_kind_bytes(AppKind::MediaPlayer) {
        Some(AppKind::MediaPlayer)
    } else if b == app_kind_bytes(AppKind::Application) {
        Some(AppKind::Application)
    } else {
        None
    }
}

/// Whether two byte strings are equal.
fn bytes_equal(a: &[u8], b: &[u8]) -> (r: bool)
    ensures
        r == (a@ == b@),
{
    if a.len() != b.len() {
        return false;
    }
    let mut i: usize = 0;
    while i < a.len()
        invariant
            a@.len() == b@.len(),
            i <= a@.len(),
            forall|j: int| 0 <= j < i ==> a@[j] == b@[j],
        decreases a.len() - i,
    {
        if a[i] != b[i] {
            return false;
        }
        i = i + 1;
    }
    assert(a@ =~= b@);
    true
}

impl AppKind {
    /// The kind whose metadata text is `value` (given as bytes), if any.
    pub fn from_sdl(value: &[u8]) -> (r: Option<Self>)
        ensures
            r == app_kind_of_bytes(value@),
    {
        let game: [u8; 4] = [103, 97, 109, 101];
        let media: [u8; 11] = [109, 101, 100, 105, 97, 112, 108, 97, 121, 101, 114];
        let app: [u8; 11] = [97, 112, 112, 108, 105, 99, 97, 116, 105, 111, 110];
        assert(game@ =~= app_kind_bytes(AppKind::Game));
        assert(media@ =~= app_kind_bytes(AppKind::MediaPlayer));
        assert(app@ =~= app_kind_bytes(AppKind::Application));
        if bytes_equal(value, game.as_slice()) {
            Some(AppKind::Game)
        } else if bytes_equal(value, media.as_slice()) {
            Some(AppKind::MediaPlayer)
        } else if bytes_equal(value, app.as_slice()) {
            Some(AppKind::Application)
        } else {
            None
        }
    }

    /// The metadata text of this kind.
    pub fn to_sdl(self) -> (s: &'static str)
        ensures
            s@ == app_kind_text(self),
    {
        match self {
            AppKind::Game => {
                proof { reveal_strlit("game"); }
                "game"
            },
            AppKind::MediaPlayer => {
                proof { reveal_strlit("mediaplayer"); }
                "mediaplayer"
            },
            AppKind::Application => {
                proof { reveal_strlit("application"); }
                "application"
            },
        }
    }
}

/// Each kind is read back from its own metadata text, and no two kinds
/// share a text.
pub proof fn lemma_app_kind_text_roundtrip(k: AppKind, b: Seq<u8>)
    ensures
        app_kind_of_bytes(app_kind_bytes(k)) == Some(k),
        app_kind_of_bytes(b) == Some(k) ==> b == app_kind_bytes(k),
{
    let g = app_kind_bytes(AppKind::Game);
    let m = app_kind_bytes(AppKind::MediaPlayer);
    let a = app_kind_bytes(AppKind::Application);
    assert(g.len() == 4 && m.len() == 11 && a.len() == 11);
    assert(m[0] != a[0]);
}

} // verus!
