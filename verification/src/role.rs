//! Roles and the path table that assigns them.

use vstd::prelude::*;
use vstd::string::StringExecFns;

verus! {

/// The role a session holds for its whole life.
#[derive(Clone, Copy, Debug, PartialEq, Eq, Structural)]
pub enum MyHandler {
    PublishVideo,
    PublishAudio,
    SubscribeVideo,
    SubscribeAudio,
}

/// What the path table says of one requested path.
#[derive(Clone, Copy, Debug, PartialEq, Eq, Structural)]
pub enum Route {
    /// The session is accepted and holds this role.
    Role(MyHandler),
    /// The session is accepted without a role; nothing is buffered or
    /// broadcast for it.
    Passthrough,
    /// The path is not in the table.
    Unknown,
}

/// The path table, over the characters of a path.
pub open spec fn route_of(path: Seq<char>) -> Route {
    if path == "/video/stream"@ {
        Route::Role(MyHandler::PublishVideo)
    } else if path == "/video/view"@ {
        Route::Role(MyHandler::SubscribeVideo)
    } else if path == "/audio/stream"@ {
        Route::Role(MyHandler::PublishAudio)
    } else if path == "/audio/view"@ {
        Route::Role(MyHandler::SubscribeAudio)
    } else if path == "/chat"@ {
        Route::Passthrough
    } else {
        Route::Unknown
    }
}

/// Looks a path up in the path table.
pub fn classify(path: &String) -> (route: Route)
    ensures
        route == route_of(path@),
{
    if *path == String::from_str("/video/stream") {
        Route::Role(MyHandler::PublishVideo)
    } else if *path == String::from_str("/video/view") {
        Route::Role(MyHandler::SubscribeVideo)
    } else if *path == String::from_str("/audio/stream") {
        Route::Role(MyHandler::PublishAudio)
    } else if *path == String::from_str("/audio/view") {
        Route::Role(MyHandler::SubscribeAudio)
    } else if *path == String::from_str("/chat") {
        Route::Passthrough
    } else {
        Route::Unknown
    }
}

/// The five paths of the table are pairwise different, so each of them
/// gets the one role written beside it.
pub proof fn lemma_route_table()
    ensures
        route_of("/video/stream"@) == Route::Role(MyHandler::PublishVideo),
        route_of("/video/view"@) == Route::Role(MyHandler::SubscribeVideo),
        route_of("/audio/stream"@) == Route::Role(MyHandler::PublishAudio),
        route_of("/audio/view"@) == Route::Role(MyHandler::SubscribeAudio),
        route_of("/chat"@) == Route::Passthrough,
{
    reveal_strlit("/video/stream");
    reveal_strlit("/video/view");
    reveal_strlit("/audio/stream");
    reveal_strlit("/audio/view");
    reveal_strlit("/chat");
    assert("/video/view"@.len() != "/video/stream"@.len());
    assert("/audio/stream"@[1] != "/video/stream"@[1]);
    assert("/audio/view"@.len() != "/video/stream"@.len());
    assert("/chat"@.len() != "/video/stream"@.len());
    assert("/audio/stream"@.len() != "/video/view"@.len());
    assert("/audio/view"@[1] != "/video/view"@[1]);
    assert("/chat"@.len() != "/video/view"@.len());
    assert("/audio/view"@.len() != "/audio/stream"@.len());
    assert("/chat"@.len() != "/audio/stream"@.len());
    assert("/chat"@.len() != "/audio/view"@.len());
}

} // verus!
