//! What each endpoint sends, stated apart from the endpoint table itself: the
//! Web API path and method of every endpoint, that no two endpoints share a
//! path, and, for every parameter, that the caller's value is sent under its
//! own name.
use vstd::prelude::*;
use crate::encode::{bool_text, decimal, joined, signed_decimal, views};
use crate::endpoint::Endpoint;
use crate::params::{list_text, opt_bool_text, opt_i64_text, opt_list_text, opt_param, opt_text, opt_u64_text};
use crate::request::{files_view, HttpMethod, TextPair};

verus! {

/// The value of the first parameter named `name`, if there is one.
pub open spec fn lookup(ps: Seq<TextPair>, name: Seq<char>) -> Option<Seq<char>>
    decreases ps.len(),
{
    if ps.len() == 0 {
        None
    } else if ps[0].0 == name {
        Some(ps[0].1)
    } else {
        lookup(ps.drop_first(), name)
    }
}

/// Looking up a name in two lists one after the other finds it in the first
/// list if it is there, and otherwise in the second.
pub broadcast proof fn lookup_append(a: Seq<TextPair>, b: Seq<TextPair>, name: Seq<char>)
    ensures
        #[trigger] lookup(a + b, name) == if lookup(a, name) is Some {
            lookup(a, name)
        } else {
            lookup(b, name)
        },
    decreases a.len(),
{
    if a.len() > 0 {
        lookup_append(a.drop_first(), b, name);
        assert((a + b).drop_first() =~= a.drop_first() + b);
    } else {
        assert(a + b =~= b);
    }
}

/// An optional parameter is found under its own name exactly when it is present.
pub broadcast proof fn lookup_opt_param(m: Seq<char>, v: Option<Seq<char>>, name: Seq<char>)
    ensures
        #[trigger] lookup(opt_param(m, v), name) == if m == name { v } else { None },
{
    reveal_with_fuel(lookup, 2);
}

/// A number for each endpoint, in the order in which the Web API documentation
/// groups them.
pub open spec fn endpoint_number(e: Endpoint) -> int {
    match e {
        Endpoint::AuthLogin { .. } => 0,
        Endpoint::AuthLogout => 1,
        Endpoint::AppVersion => 2,
        Endpoint::AppWebApiVersion => 3,
        Endpoint::AppBuildInfo => 4,
        Endpoint::AppPreferences => 5,
        Endpoint::AppSetPreferences { .. } => 6,
        Endpoint::AppDefaultSavePath => 7,
        Endpoint::LogMain { .. } => 8,
        Endpoint::LogPeers { .. } => 9,
        Endpoint::Maindata { .. } => 10,
        Endpoint::TorrentPeers { .. } => 11,
        Endpoint::TransferInfo => 12,
        Endpoint::SpeedLimitsMode => 13,
        Endpoint::ToggleSpeedLimitsMode => 14,
        Endpoint::DownloadLimit => 15,
        Endpoint::SetDownloadLimit { .. } => 16,
        Endpoint::UploadLimit => 17,
        Endpoint::SetUploadLimit { .. } => 18,
        Endpoint::BanPeers { .. } => 19,
        Endpoint::TorrentsInfo { .. } => 20,
        Endpoint::TorrentsProperties { .. } => 21,
        Endpoint::TorrentsTrackers { .. } => 22,
        Endpoint::TorrentsWebseeds { .. } => 23,
        Endpoint::TorrentsFiles { .. } => 24,
        Endpoint::TorrentsPieceStates { .. } => 25,
        Endpoint::TorrentsPieceHashes { .. } => 26,
        Endpoint::TorrentsPause { .. } => 27,
        Endpoint::TorrentsAdd { .. } => 28,
        Endpoint::TorrentsAddTrackers { .. } => 29,
        Endpoint::TorrentsEditTracker { .. } => 30,
        Endpoint::TorrentsRemoveTrackers { .. } => 31,
        Endpoint::TorrentsAddPeers { .. } => 32,
        Endpoint::TorrentsIncreasePrio { .. } => 33,
        Endpoint::TorrentsDecreasePrio { .. } => 34,
        Endpoint::TorrentsTopPrio { .. } => 35,
        Endpoint::TorrentsBottomPrio { .. } => 36,
        Endpoint::TorrentsDownloadLimit { .. } => 37,
        Endpoint::TorrentsSetDownloadLimit { .. } => 38,
        Endpoint::TorrentsSetShareLimits { .. } => 39,
        Endpoint::TorrentsUploadLimit { .. } => 40,
        Endpoint::TorrentsSetUploadLimit { .. } => 41,
        Endpoint::TorrentsSetLocation { .. } => 42,
        Endpoint::TorrentsRename { .. } => 43,
        Endpoint::TorrentsSetCategory { .. } => 44,
        Endpoint::TorrentsCategories => 45,
        Endpoint::TorrentsCreateCategory { .. } => 46,
        Endpoint::TorrentsEditCategory { .. } => 47,
        Endpoint::TorrentsRemoveCategories { .. } => 48,
        Endpoint::TorrentsAddTags { .. } => 49,
        Endpoint::TorrentsRemoveTags { .. } => 50,
        Endpoint::TorrentsTags => 51,
        Endpoint::TorrentsCreateTags { .. } => 52,
        Endpoint::TorrentsDeleteTags { .. } => 53,
        Endpoint::TorrentsSetAutoManagement { .. } => 54,
        Endpoint::TorrentsToggleSequentialDownload { .. } => 55,
        Endpoint::TorrentsToggleFirstLastPiecePrio { .. } => 56,
        Endpoint::TorrentsSetForceStart { .. } => 57,
        Endpoint::TorrentsSetSuperSeeding { .. } => 58,
        Endpoint::TorrentsRenameFile { .. } => 59,
        Endpoint::TorrentsRenameFolder { .. } => 60,
        Endpoint::SearchStart { .. } => 61,
        Endpoint::SearchStop { .. } => 62,
        Endpoint::SearchStatus { .. } => 63,
        Endpoint::SearchResults { .. } => 64,
    }
}

spec fn number_of_path(p: Seq<char>) -> int {
    if p == "api/v2/auth/login"@ {
        0
    } else if p == "api/v2/auth/logout"@ {
        1
    } else if p == "api/v2/app/version"@ {
        2
    } else if p == "api/v2/app/webapiVersion"@ {
        3
    } else if p == "api/v2/app/buildInfo"@ {
        4
    } else if p == "api/v2/app/preferences"@ {
        5
    } else if p == "api/v2/app/setPreferences"@ {
        6
    } else if p == "api/v2/app/defaultSavePath"@ {
        7
    } else if p == "api/v2/log/main"@ {
        8
    } else if p == "api/v2/log/peers"@ {
        9
    } else if p == "api/v2/sync/maindata"@ {
        10
    } else if p == "api/v2/sync/torrentPeers"@ {
        11
    } else if p == "api/v2/transfer/info"@ {
        12
    } else if p == "api/v2/transfer/speedLimitsMode"@ {
        13
    } else if p == "api/v2/transfer/toggleSpeedLimitsMode"@ {
        14
    } else if p == "api/v2/transfer/downloadLimit"@ {
        15
    } else if p == "api/v2/transfer/setDownloadLimit"@ {
        16
    } else if p == "api/v2/transfer/uploadLimit"@ {
        17
    } else if p == "api/v2/transfer/setUploadLimit"@ {
        18
    } else if p == "api/v2/transfer/banPeers"@ {
        19
    } else if p == "api/v2/torrents/info"@ {
        20
    } else if p == "api/v2/torrents/properties"@ {
        21
    } else if p == "api/v2/torrents/trackers"@ {
        22
    } else if p == "api/v2/torrents/webseeds"@ {
        23
    } else if p == "api/v2/torrents/files"@ {
        24
    } else if p == "api/v2/torrents/pieceStates"@ {
        25
    } else if p == "api/v2/torrents/pieceHashes"@ {
        26
    } else if p == "api/v2/torrents/pause"@ {
        27
    } else if p == "api/v2/torrents/add"@ {
        28
    } else if p == "api/v2/torrents/addTrackers"@ {
        29
    } else if p == "api/v2/torrents/editTracker"@ {
        30
    } else if p == "api/v2/torrents/removeTrackers"@ {
        31
    } else if p == "api/v2/torrents/addPeers"@ {
        32
    } else if p == "api/v2/torrents/increasePrio"@ {
        33
    } else if p == "api/v2/torrents/decreasePrio"@ {
        34
    } else if p == "api/v2/torrents/topPrio"@ {
        35
    } else if p == "api/v2/torrents/bottomPrio"@ {
        36
    } else if p == "api/v2/torrents/downloadLimit"@ {
        37
    } else if p == "api/v2/torrents/setDownloadLimit"@ {
        38
    } else if p == "api/v2/torrents/setShareLimits"@ {
        39
    } else if p == "api/v2/torrents/uploadLimit"@ {
        40
    } else if p == "api/v2/torrents/setUploadLimit"@ {
        41
    } else if p == "api/v2/torrents/setLocation"@ {
        42
    } else if p == "api/v2/torrents/rename"@ {
        43
    } else if p == "api/v2/torrents/setCategory"@ {
        44
    } else if p == "api/v2/torrents/categories"@ {
        45
    } else if p == "api/v2/torrents/createCategory"@ {
        46
    } else if p == "api/v2/torrents/editCategory"@ {
        47
    } else if p == "api/v2/torrents/removeCategories"@ {
        48
    } else if p == "api/v2/torrents/addTags"@ {
        49
    } else if p == "api/v2/torrents/removeTags"@ {
        50
    } else if p == "api/v2/torrents/tags"@ {
        51
    } else if p == "api/v2/torrents/createTags"@ {
        52
    } else if p == "api/v2/torrents/deleteTags"@ {
        53
    } else if p == "api/v2/torrents/setAutoManagement"@ {
        54
    } else if p == "api/v2/torrents/toggleSequentialDownload"@ {
        55
    } else if p == "api/v2/torrents/toggleFirstLastPiecePrio"@ {
        56
    } else if p == "api/v2/torrents/setForceStart"@ {
        57
    } else if p == "api/v2/torrents/setSuperSeeding"@ {
        58
    } else if p == "api/v2/torrents/renameFile"@ {
        59
    } else if p == "api/v2/torrents/renameFolder"@ {
        60
    } else if p == "api/v2/search/start"@ {
        61
    } else if p == "api/v2/search/stop"@ {
        62
    } else if p == "api/v2/search/status"@ {
        63
    } else if p == "api/v2/search/results"@ {
        64
    } else {
        -1
    }
}

proof fn lemma_path_lengths()
    ensures
        "api/v2/auth/login"@.len() == 17,
        "api/v2/auth/logout"@.len() == 18,
        "api/v2/app/version"@.len() == 18,
        "api/v2/app/webapiVersion"@.len() == 24,
        "api/v2/app/buildInfo"@.len() == 20,
        "api/v2/app/preferences"@.len() == 22,
        "api/v2/app/setPreferences"@.len() == 25,
        "api/v2/app/defaultSavePath"@.len() == 26,
        "api/v2/log/main"@.len() == 15,
        "api/v2/log/peers"@.len() == 16,
        "api/v2/sync/maindata"@.len() == 20,
        "api/v2/sync/torrentPeers"@.len() == 24,
        "api/v2/transfer/info"@.len() == 20,
        "api/v2/transfer/speedLimitsMode"@.len() == 31,
        "api/v2/transfer/toggleSpeedLimitsMode"@.len() == 37,
        "api/v2/transfer/downloadLimit"@.len() == 29,
        "api/v2/transfer/setDownloadLimit"@.len() == 32,
        "api/v2/transfer/uploadLimit"@.len() == 27,
        "api/v2/transfer/setUploadLimit"@.len() == 30,
        "api/v2/transfer/banPeers"@.len() == 24,
        "api/v2/torrents/info"@.len() == 20,
        "api/v2/torrents/properties"@.len() == 26,
        "api/v2/torrents/trackers"@.len() == 24,
        "api/v2/torrents/webseeds"@.len() == 24,
        "api/v2/torrents/files"@.len() == 21,
        "api/v2/torrents/pieceStates"@.len() == 27,
        "api/v2/torrents/pieceHashes"@.len() == 27,
        "api/v2/torrents/pause"@.len() == 21,
        "api/v2/torrents/add"@.len() == 19,
        "api/v2/torrents/addTrackers"@.len() == 27,
        "api/v2/torrents/editTracker"@.len() == 27,
        "api/v2/torrents/removeTrackers"@.len() == 30,
        "api/v2/torrents/addPeers"@.len() == 24,
        "api/v2/torrents/increasePrio"@.len() == 28,
        "api/v2/torrents/decreasePrio"@.len() == 28,
        "api/v2/torrents/topPrio"@.len() == 23,
        "api/v2/torrents/bottomPrio"@.len() == 26,
        "api/v2/torrents/downloadLimit"@.len() == 29,
        "api/v2/torrents/setDownloadLimit"@.len() == 32,
        "api/v2/torrents/setShareLimits"@.len() == 30,
        "api/v2/torrents/uploadLimit"@.len() == 27,
        "api/v2/torrents/setUploadLimit"@.len() == 30,
        "api/v2/torrents/setLocation"@.len() == 27,
        "api/v2/torrents/rename"@.len() == 22,
        "api/v2/torrents/setCategory"@.len() == 27,
        "api/v2/torrents/categories"@.len() == 26,
        "api/v2/torrents/createCategory"@.len() == 30,
        "api/v2/torrents/editCategory"@.len() == 28,
        "api/v2/torrents/removeCategories"@.len() == 32,
        "api/v2/torrents/addTags"@.len() == 23,
        "api/v2/torrents/removeTags"@.len() == 26,
        "api/v2/torrents/tags"@.len() == 20,
        "api/v2/torrents/createTags"@.len() == 26,
        "api/v2/torrents/deleteTags"@.len() == 26,
        "api/v2/torrents/setAutoManagement"@.len() == 33,
        "api/v2/torrents/toggleSequentialDownload"@.len() == 40,
        "api/v2/torrents/toggleFirstLastPiecePrio"@.len() == 40,
        "api/v2/torrents/setForceStart"@.len() == 29,
        "api/v2/torrents/setSuperSeeding"@.len() == 31,
        "api/v2/torrents/renameFile"@.len() == 26,
        "api/v2/torrents/renameFolder"@.len() == 28,
        "api/v2/search/start"@.len() == 19,
        "api/v2/search/stop"@.len() == 18,
        "api/v2/search/status"@.len() == 20,
        "api/v2/search/results"@.len() == 21,
{
    reveal_strlit("api/v2/app/buildInfo");
    reveal_strlit("api/v2/app/defaultSavePath");
    reveal_strlit("api/v2/app/preferences");
    reveal_strlit("api/v2/app/setPreferences");
    reveal_strlit("api/v2/app/version");
    reveal_strlit("api/v2/app/webapiVersion");
    reveal_strlit("api/v2/auth/login");
    reveal_strlit("api/v2/auth/logout");
    reveal_strlit("api/v2/log/main");
    reveal_strlit("api/v2/log/peers");
    reveal_strlit("api/v2/search/results");
    reveal_strlit("api/v2/search/start");
    reveal_strlit("api/v2/search/status");
    reveal_strlit("api/v2/search/stop");
    reveal_strlit("api/v2/sync/maindata");
    reveal_strlit("api/v2/sync/torrentPeers");
    reveal_strlit("api/v2/torrents/add");
    reveal_strlit("api/v2/torrents/addPeers");
    reveal_strlit("api/v2/torrents/addTags");
    reveal_strlit("api/v2/torrents/addTrackers");
    reveal_strlit("api/v2/torrents/bottomPrio");
    reveal_strlit("api/v2/torrents/categories");
    reveal_strlit("api/v2/torrents/createCategory");
    reveal_strlit("api/v2/torrents/createTags");
    reveal_strlit("api/v2/torrents/decreasePrio");
    reveal_strlit("api/v2/torrents/deleteTags");
    reveal_strlit("api/v2/torrents/downloadLimit");
    reveal_strlit("api/v2/torrents/editCategory");
    reveal_strlit("api/v2/torrents/editTracker");
    reveal_strlit("api/v2/torrents/files");
    reveal_strlit("api/v2/torrents/increasePrio");
    reveal_strlit("api/v2/torrents/info");
    reveal_strlit("api/v2/torrents/pause");
    reveal_strlit("api/v2/torrents/pieceHashes");
    reveal_strlit("api/v2/torrents/pieceStates");
    reveal_strlit("api/v2/torrents/properties");
    reveal_strlit("api/v2/torrents/removeCategories");
    reveal_strlit("api/v2/torrents/removeTags");
    reveal_strlit("api/v2/torrents/removeTrackers");
    reveal_strlit("api/v2/torrents/rename");
    reveal_strlit("api/v2/torrents/renameFile");
    reveal_strlit("api/v2/torrents/renameFolder");
    reveal_strlit("api/v2/torrents/setAutoManagement");
    reveal_strlit("api/v2/torrents/setCategory");
    reveal_strlit("api/v2/torrents/setDownloadLimit");
    reveal_strlit("api/v2/torrents/setForceStart");
    reveal_strlit("api/v2/torrents/setLocation");
    reveal_strlit("api/v2/torrents/setShareLimits");
    reveal_strlit("api/v2/torrents/setSuperSeeding");
    reveal_strlit("api/v2/torrents/setUploadLimit");
    reveal_strlit("api/v2/torrents/tags");
    reveal_strlit("api/v2/torrents/toggleFirstLastPiecePrio");
    reveal_strlit("api/v2/torrents/toggleSequentialDownload");
    reveal_strlit("api/v2/torrents/topPrio");
    reveal_strlit("api/v2/torrents/trackers");
    reveal_strlit("api/v2/torrents/uploadLimit");
    reveal_strlit("api/v2/torrents/webseeds");
    reveal_strlit("api/v2/transfer/banPeers");
    reveal_strlit("api/v2/transfer/downloadLimit");
    reveal_strlit("api/v2/transfer/info");
    reveal_strlit("api/v2/transfer/setDownloadLimit");
    reveal_strlit("api/v2/transfer/setUploadLimit");
    reveal_strlit("api/v2/transfer/speedLimitsMode");
    reveal_strlit("api/v2/transfer/toggleSpeedLimitsMode");
    reveal_strlit("api/v2/transfer/uploadLimit");
}

proof fn lemma_path_chars_0()
    ensures
        "api/v2/app/buildInfo"@[7] == 'a',
        "api/v2/app/defaultSavePath"@[7] == 'a',
        "api/v2/app/preferences"@[7] == 'a',
        "api/v2/app/version"@[7] == 'a',
        "api/v2/app/version"@[8] == 'p',
        "api/v2/app/webapiVersion"@[7] == 'a',
        "api/v2/auth/logout"@[7] == 'a',
        "api/v2/auth/logout"@[8] == 'u',
        "api/v2/search/results"@[7] == 's',
        "api/v2/search/start"@[7] == 's',
        "api/v2/search/status"@[7] == 's',
        "api/v2/search/status"@[8] == 'e',
        "api/v2/search/stop"@[7] == 's',
        "api/v2/sync/maindata"@[7] == 's',
        "api/v2/sync/maindata"@[8] == 'y',
        "api/v2/sync/torrentPeers"@[7] == 's',
        "api/v2/torrents/add"@[7] == 't',
        "api/v2/torrents/addPeers"@[7] == 't',
        "api/v2/torrents/addPeers"@[8] == 'o',
        "api/v2/torrents/addPeers"@[16] == 'a',
        "api/v2/torrents/addTags"@[16] == 'a',
        "api/v2/torrents/addTrackers"@[8] == 'o',
        "api/v2/torrents/addTrackers"@[16] == 'a',
        "api/v2/torrents/bottomPrio"@[7] == 't',
        "api/v2/torrents/bottomPrio"@[16] == 'b',
        "api/v2/torrents/categories"@[7] == 't',
        "api/v2/torrents/categories"@[16] == 'c',
        "api/v2/torrents/categories"@[17] == 'a',
        "api/v2/torrents/createCategory"@[8] == 'o',
        "api/v2/torrents/createCategory"@[16] == 'c',
        "api/v2/torrents/createTags"@[7] == 't',
        "api/v2/torrents/createTags"@[16] == 'c',
        "api/v2/torrents/createTags"@[17] == 'r',
        "api/v2/torrents/decreasePrio"@[16] == 'd',
        "api/v2/torrents/deleteTags"@[7] == 't',
        "api/v2/torrents/deleteTags"@[16] == 'd',
        "api/v2/torrents/downloadLimit"@[8] == 'o',
        "api/v2/torrents/downloadLimit"@[16] == 'd',
        "api/v2/torrents/editCategory"@[16] == 'e',
        "api/v2/torrents/editTracker"@[8] == 'o',
{
    reveal_strlit("api/v2/app/buildInfo");
    reveal_strlit("api/v2/app/defaultSavePath");
    reveal_strlit("api/v2/app/preferences");
    reveal_strlit("api/v2/app/version");
    reveal_strlit("api/v2/app/webapiVersion");
    reveal_strlit("api/v2/auth/logout");
    reveal_strlit("api/v2/search/results");
    reveal_strlit("api/v2/search/start");
    reveal_strlit("api/v2/search/status");
    reveal_strlit("api/v2/search/stop");
    reveal_strlit("api/v2/sync/maindata");
    reveal_strlit("api/v2/sync/torrentPeers");
    reveal_strlit("api/v2/torrents/add");
    reveal_strlit("api/v2/torrents/addPeers");
    reveal_strlit("api/v2/torrents/addTags");
    reveal_strlit("api/v2/torrents/addTrackers");
    reveal_strlit("api/v2/torrents/bottomPrio");
    reveal_strlit("api/v2/torrents/categories");
    reveal_strlit("api/v2/torrents/createCategory");
    reveal_strlit("api/v2/torrents/createTags");
    reveal_strlit("api/v2/torrents/decreasePrio");
    reveal_strlit("api/v2/torrents/deleteTags");
    reveal_strlit("api/v2/torrents/downloadLimit");
    reveal_strlit("api/v2/torrents/editCategory");
    reveal_strlit("api/v2/torrents/editTracker");
}

proof fn lemma_path_chars_1()
    ensures
        "api/v2/torrents/editTracker"@[16] == 'e',
        "api/v2/torrents/files"@[7] == 't',
        "api/v2/torrents/files"@[16] == 'f',
        "api/v2/torrents/increasePrio"@[16] == 'i',
        "api/v2/torrents/info"@[7] == 't',
        "api/v2/torrents/info"@[8] == 'o',
        "api/v2/torrents/info"@[16] == 'i',
        "api/v2/torrents/pause"@[7] == 't',
        "api/v2/torrents/pause"@[16] == 'p',
        "api/v2/torrents/pieceHashes"@[8] == 'o',
        "api/v2/torrents/pieceHashes"@[16] == 'p',
        "api/v2/torrents/pieceHashes"@[21] == 'H',
        "api/v2/torrents/pieceStates"@[8] == 'o',
        "api/v2/torrents/pieceStates"@[16] == 'p',
        "api/v2/torrents/pieceStates"@[21] == 'S',
        "api/v2/torrents/properties"@[7] == 't',
        "api/v2/torrents/properties"@[16] == 'p',
        "api/v2/torrents/removeCategories"@[8] == 'o',
        "api/v2/torrents/removeCategories"@[16] == 'r',
        "api/v2/torrents/removeTags"@[7] == 't',
        "api/v2/torrents/removeTags"@[16] == 'r',
        "api/v2/torrents/removeTags"@[18] == 'm',
        "api/v2/torrents/removeTrackers"@[8] == 'o',
        "api/v2/torrents/removeTrackers"@[16] == 'r',
        "api/v2/torrents/rename"@[7] == 't',
        "api/v2/torrents/renameFile"@[7] == 't',
        "api/v2/torrents/renameFile"@[16] == 'r',
        "api/v2/torrents/renameFile"@[18] == 'n',
        "api/v2/torrents/renameFolder"@[16] == 'r',
        "api/v2/torrents/setCategory"@[8] == 'o',
        "api/v2/torrents/setCategory"@[16] == 's',
        "api/v2/torrents/setCategory"@[19] == 'C',
        "api/v2/torrents/setDownloadLimit"@[8] == 'o',
        "api/v2/torrents/setDownloadLimit"@[16] == 's',
        "api/v2/torrents/setForceStart"@[8] == 'o',
        "api/v2/torrents/setForceStart"@[16] == 's',
        "api/v2/torrents/setLocation"@[8] == 'o',
        "api/v2/torrents/setLocation"@[16] == 's',
        "api/v2/torrents/setLocation"@[19] == 'L',
        "api/v2/torrents/setShareLimits"@[8] == 'o',
{
    reveal_strlit("api/v2/torrents/editTracker");
    reveal_strlit("api/v2/torrents/files");
    reveal_strlit("api/v2/torrents/increasePrio");
    reveal_strlit("api/v2/torrents/info");
    reveal_strlit("api/v2/torrents/pause");
    reveal_strlit("api/v2/torrents/pieceHashes");
    reveal_strlit("api/v2/torrents/pieceStates");
    reveal_strlit("api/v2/torrents/properties");
    reveal_strlit("api/v2/torrents/removeCategories");
    reveal_strlit("api/v2/torrents/removeTags");
    reveal_strlit("api/v2/torrents/removeTrackers");
    reveal_strlit("api/v2/torrents/rename");
    reveal_strlit("api/v2/torrents/renameFile");
    reveal_strlit("api/v2/torrents/renameFolder");
    reveal_strlit("api/v2/torrents/setCategory");
    reveal_strlit("api/v2/torrents/setDownloadLimit");
    reveal_strlit("api/v2/torrents/setForceStart");
    reveal_strlit("api/v2/torrents/setLocation");
    reveal_strlit("api/v2/torrents/setShareLimits");
}

proof fn lemma_path_chars_2()
    ensures
        "api/v2/torrents/setShareLimits"@[16] == 's',
        "api/v2/torrents/setShareLimits"@[19] == 'S',
        "api/v2/torrents/setSuperSeeding"@[8] == 'o',
        "api/v2/torrents/setUploadLimit"@[8] == 'o',
        "api/v2/torrents/setUploadLimit"@[16] == 's',
        "api/v2/torrents/setUploadLimit"@[19] == 'U',
        "api/v2/torrents/tags"@[7] == 't',
        "api/v2/torrents/tags"@[8] == 'o',
        "api/v2/torrents/tags"@[16] == 't',
        "api/v2/torrents/toggleFirstLastPiecePrio"@[22] == 'F',
        "api/v2/torrents/toggleSequentialDownload"@[22] == 'S',
        "api/v2/torrents/topPrio"@[16] == 't',
        "api/v2/torrents/trackers"@[7] == 't',
        "api/v2/torrents/trackers"@[8] == 'o',
        "api/v2/torrents/trackers"@[16] == 't',
        "api/v2/torrents/uploadLimit"@[8] == 'o',
        "api/v2/torrents/uploadLimit"@[16] == 'u',
        "api/v2/torrents/webseeds"@[7] == 't',
        "api/v2/torrents/webseeds"@[8] == 'o',
        "api/v2/torrents/webseeds"@[16] == 'w',
        "api/v2/transfer/banPeers"@[7] == 't',
        "api/v2/transfer/banPeers"@[8] == 'r',
        "api/v2/transfer/downloadLimit"@[8] == 'r',
        "api/v2/transfer/info"@[7] == 't',
        "api/v2/transfer/info"@[8] == 'r',
        "api/v2/transfer/setDownloadLimit"@[8] == 'r',
        "api/v2/transfer/setUploadLimit"@[8] == 'r',
        "api/v2/transfer/speedLimitsMode"@[8] == 'r',
        "api/v2/transfer/uploadLimit"@[8] == 'r',
{
    reveal_strlit("api/v2/torrents/setShareLimits");
    reveal_strlit("api/v2/torrents/setSuperSeeding");
    reveal_strlit("api/v2/torrents/setUploadLimit");
    reveal_strlit("api/v2/torrents/tags");
    reveal_strlit("api/v2/torrents/toggleFirstLastPiecePrio");
    reveal_strlit("api/v2/torrents/toggleSequentialDownload");
    reveal_strlit("api/v2/torrents/topPrio");
    reveal_strlit("api/v2/torrents/trackers");
    reveal_strlit("api/v2/torrents/uploadLimit");
    reveal_strlit("api/v2/torrents/webseeds");
    reveal_strlit("api/v2/transfer/banPeers");
    reveal_strlit("api/v2/transfer/downloadLimit");
    reveal_strlit("api/v2/transfer/info");
    reveal_strlit("api/v2/transfer/setDownloadLimit");
    reveal_strlit("api/v2/transfer/setUploadLimit");
    reveal_strlit("api/v2/transfer/speedLimitsMode");
    reveal_strlit("api/v2/transfer/uploadLimit");
}

proof fn lemma_path_number_0()
    ensures
        number_of_path("api/v2/auth/login"@) == 0,
{
    lemma_path_lengths();
    lemma_path_chars_0();
    lemma_path_chars_1();
    lemma_path_chars_2();
}

proof fn lemma_path_number_1()
    ensures
        number_of_path("api/v2/auth/logout"@) == 1,
{
    lemma_path_lengths();
    lemma_path_chars_0();
    lemma_path_chars_1();
    lemma_path_chars_2();
}

proof fn lemma_path_number_2()
    ensures
        number_of_path("api/v2/app/version"@) == 2,
{
    lemma_path_lengths();
    lemma_path_chars_0();
    lemma_path_chars_1();
    lemma_path_chars_2();
}

proof fn lemma_path_number_3()
    ensures
        number_of_path("api/v2/app/webapiVersion"@) == 3,
{
    lemma_path_lengths();
    lemma_path_chars_0();
    lemma_path_chars_1();
    lemma_path_chars_2();
}

proof fn lemma_path_number_4()
    ensures
        number_of_path("api/v2/app/buildInfo"@) == 4,
{
    lemma_path_lengths();
    lemma_path_chars_0();
    lemma_path_chars_1();
    lemma_path_chars_2();
}

proof fn lemma_path_number_5()
    ensures
        number_of_path("api/v2/app/preferences"@) == 5,
{
    lemma_path_lengths();
    lemma_path_chars_0();
    lemma_path_chars_1();
    lemma_path_chars_2();
}

proof fn lemma_path_number_6()
    ensures
        number_of_path("api/v2/app/setPreferences"@) == 6,
{
    lemma_path_lengths();
    lemma_path_chars_0();
    lemma_path_chars_1();
    lemma_path_chars_2();
}

proof fn lemma_path_number_7()
    ensures
        number_of_path("api/v2/app/defaultSavePath"@) == 7,
{
    lemma_path_lengths();
    lemma_path_chars_0();
    lemma_path_chars_1();
    lemma_path_chars_2();
}

proof fn lemma_path_number_8()
    ensures
        number_of_path("api/v2/log/main"@) == 8,
{
    lemma_path_lengths();
    lemma_path_chars_0();
    lemma_path_chars_1();
    lemma_path_chars_2();
}

proof fn lemma_path_number_9()
    ensures
        number_of_path("api/v2/log/peers"@) == 9,
{
    lemma_path_lengths();
    lemma_path_chars_0();
    lemma_path_chars_1();
    lemma_path_chars_2();
}

proof fn lemma_path_number_10()
    ensures
        number_of_path("api/v2/sync/maindata"@) == 10,
{
    lemma_path_lengths();
    lemma_path_chars_0();
    lemma_path_chars_1();
    lemma_path_chars_2();
}

proof fn lemma_path_number_11()
    ensures
        number_of_path("api/v2/sync/torrentPeers"@) == 11,
{
    lemma_path_lengths();
    lemma_path_chars_0();
    lemma_path_chars_1();
    lemma_path_chars_2();
}

proof fn lemma_path_number_12()
    ensures
        number_of_path("api/v2/transfer/info"@) == 12,
{
    lemma_path_lengths();
    lemma_path_chars_0();
    lemma_path_chars_1();
    lemma_path_chars_2();
}

proof fn lemma_path_number_13()
    ensures
        number_of_path("api/v2/transfer/speedLimitsMode"@) == 13,
{
    lemma_path_lengths();
    lemma_path_chars_0();
    lemma_path_chars_1();
    lemma_path_chars_2();
}

proof fn lemma_path_number_14()
    ensures
        number_of_path("api/v2/transfer/toggleSpeedLimitsMode"@) == 14,
{
    lemma_path_lengths();
    lemma_path_chars_0();
    lemma_path_chars_1();
    lemma_path_chars_2();
}

proof fn lemma_path_number_15()
    ensures
        number_of_path("api/v2/transfer/downloadLimit"@) == 15,
{
    lemma_path_lengths();
    lemma_path_chars_0();
    lemma_path_chars_1();
    lemma_path_chars_2();
}

proof fn lemma_path_number_16()
    ensures
        number_of_path("api/v2/transfer/setDownloadLimit"@) == 16,
{
    lemma_path_lengths();
    lemma_path_chars_0();
    lemma_path_chars_1();
    lemma_path_chars_2();
}

proof fn lemma_path_number_17()
    ensures
        number_of_path("api/v2/transfer/uploadLimit"@) == 17,
{
    lemma_path_lengths();
    lemma_path_chars_0();
    lemma_path_chars_1();
    lemma_path_chars_2();
}

proof fn lemma_path_number_18()
    ensures
        number_of_path("api/v2/transfer/setUploadLimit"@) == 18,
{
    lemma_path_lengths();
    lemma_path_chars_0();
    lemma_path_chars_1();
    lemma_path_chars_2();
}

proof fn lemma_path_number_19()
    ensures
        number_of_path("api/v2/transfer/banPeers"@) == 19,
{
    lemma_path_lengths();
    lemma_path_chars_0();
    lemma_path_chars_1();
    lemma_path_chars_2();
}

proof fn lemma_path_number_20()
    ensures
        number_of_path("api/v2/torrents/info"@) == 20,
{
    lemma_path_lengths();
    lemma_path_chars_0();
    lemma_path_chars_1();
    lemma_path_chars_2();
}

proof fn lemma_path_number_21()
    ensures
        number_of_path("api/v2/torrents/properties"@) == 21,
{
    lemma_path_lengths();
    lemma_path_chars_0();
    lemma_path_chars_1();
    lemma_path_chars_2();
}

proof fn lemma_path_number_22()
    ensures
        number_of_path("api/v2/torrents/trackers"@) == 22,
{
    lemma_path_lengths();
    lemma_path_chars_0();
    lemma_path_chars_1();
    lemma_path_chars_2();
}

proof fn lemma_path_number_23()
    ensures
        number_of_path("api/v2/torrents/webseeds"@) == 23,
{
    lemma_path_lengths();
    lemma_path_chars_0();
    lemma_path_chars_1();
    lemma_path_chars_2();
}

proof fn lemma_path_number_24()
    ensures
        number_of_path("api/v2/torrents/files"@) == 24,
{
    lemma_path_lengths();
    lemma_path_chars_0();
    lemma_path_chars_1();
    lemma_path_chars_2();
}

proof fn lemma_path_number_25()
    ensures
        number_of_path("api/v2/torrents/pieceStates"@) == 25,
{
    lemma_path_lengths();
    lemma_path_chars_0();
    lemma_path_chars_1();
    lemma_path_chars_2();
}

proof fn lemma_path_number_26()
    ensures
        number_of_path("api/v2/torrents/pieceHashes"@) == 26,
{
    lemma_path_lengths();
    lemma_path_chars_0();
    lemma_path_chars_1();
    lemma_path_chars_2();
}

proof fn lemma_path_number_27()
    ensures
        number_of_path("api/v2/torrents/pause"@) == 27,
{
    lemma_path_lengths();
    lemma_path_chars_0();
    lemma_path_chars_1();
    lemma_path_chars_2();
}

proof fn lemma_path_number_28()
    ensures
        number_of_path("api/v2/torrents/add"@) == 28,
{
    lemma_path_lengths();
    lemma_path_chars_0();
    lemma_path_chars_1();
    lemma_path_chars_2();
}

proof fn lemma_path_number_29()
    ensures
        number_of_path("api/v2/torrents/addTrackers"@) == 29,
{
    lemma_path_lengths();
    lemma_path_chars_0();
    lemma_path_chars_1();
    lemma_path_chars_2();
}

proof fn lemma_path_number_30()
    ensures
        number_of_path("api/v2/torrents/editTracker"@) == 30,
{
    lemma_path_lengths();
    lemma_path_chars_0();
    lemma_path_chars_1();
    lemma_path_chars_2();
}

proof fn lemma_path_number_31()
    ensures
        number_of_path("api/v2/torrents/removeTrackers"@) == 31,
{
    lemma_path_lengths();
    lemma_path_chars_0();
    lemma_path_chars_1();
    lemma_path_chars_2();
}

proof fn lemma_path_number_32()
    ensures
        number_of_path("api/v2/torrents/addPeers"@) == 32,
{
    lemma_path_lengths();
    lemma_path_chars_0();
    lemma_path_chars_1();
    lemma_path_chars_2();
}

proof fn lemma_path_number_33()
    ensures
        number_of_path("api/v2/torrents/increasePrio"@) == 33,
{
    lemma_path_lengths();
    lemma_path_chars_0();
    lemma_path_chars_1();
    lemma_path_chars_2();
}

proof fn lemma_path_number_34()
    ensures
        number_of_path("api/v2/torrents/decreasePrio"@) == 34,
{
    lemma_path_lengths();
    lemma_path_chars_0();
    lemma_path_chars_1();
    lemma_path_chars_2();
}

proof fn lemma_path_number_35()
    ensures
        number_of_path("api/v2/torrents/topPrio"@) == 35,
{
    lemma_path_lengths();
    lemma_path_chars_0();
    lemma_path_chars_1();
    lemma_path_chars_2();
}

proof fn lemma_path_number_36()
    ensures
        number_of_path("api/v2/torrents/bottomPrio"@) == 36,
{
    lemma_path_lengths();
    lemma_path_chars_0();
    lemma_path_chars_1();
    lemma_path_chars_2();
}

proof fn lemma_path_number_37()
    ensures
        number_of_path("api/v2/torrents/downloadLimit"@) == 37,
{
    lemma_path_lengths();
    lemma_path_chars_0();
    lemma_path_chars_1();
    lemma_path_chars_2();
}

proof fn lemma_path_number_38()
    ensures
        number_of_path("api/v2/torrents/setDownloadLimit"@) == 38,
{
    lemma_path_lengths();
    lemma_path_chars_0();
    lemma_path_chars_1();
    lemma_path_chars_2();
}

proof fn lemma_path_number_39()
    ensures
        number_of_path("api/v2/torrents/setShareLimits"@) == 39,
{
    lemma_path_lengths();
    lemma_path_chars_0();
    lemma_path_chars_1();
    lemma_path_chars_2();
}

proof fn lemma_path_number_40()
    ensures
        number_of_path("api/v2/torrents/uploadLimit"@) == 40,
{
    lemma_path_lengths();
    lemma_path_chars_0();
    lemma_path_chars_1();
    lemma_path_chars_2();
}

proof fn lemma_path_number_41()
    ensures
        number_of_path("api/v2/torrents/setUploadLimit"@) == 41,
{
    lemma_path_lengths();
    lemma_path_chars_0();
    lemma_path_chars_1();
    lemma_path_chars_2();
}

proof fn lemma_path_number_42()
    ensures
        number_of_path("api/v2/torrents/setLocation"@) == 42,
{
    lemma_path_lengths();
    lemma_path_chars_0();
    lemma_path_chars_1();
    lemma_path_chars_2();
}

proof fn lemma_path_number_43()
    ensures
        number_of_path("api/v2/torrents/rename"@) == 43,
{
    lemma_path_lengths();
    lemma_path_chars_0();
    lemma_path_chars_1();
    lemma_path_chars_2();
}

proof fn lemma_path_number_44()
    ensures
        number_of_path("api/v2/torrents/setCategory"@) == 44,
{
    lemma_path_lengths();
    lemma_path_chars_0();
    lemma_path_chars_1();
    lemma_path_chars_2();
}

proof fn lemma_path_number_45()
    ensures
        number_of_path("api/v2/torrents/categories"@) == 45,
{
    lemma_path_lengths();
    lemma_path_chars_0();
    lemma_path_chars_1();
    lemma_path_chars_2();
}

proof fn lemma_path_number_46()
    ensures
        number_of_path("api/v2/torrents/createCategory"@) == 46,
{
    lemma_path_lengths();
    lemma_path_chars_0();
    lemma_path_chars_1();
    lemma_path_chars_2();
}

proof fn lemma_path_number_47()
    ensures
        number_of_path("api/v2/torrents/editCategory"@) == 47,
{
    lemma_path_lengths();
    lemma_path_chars_0();
    lemma_path_chars_1();
    lemma_path_chars_2();
}

proof fn lemma_path_number_48()
    ensures
        number_of_path("api/v2/torrents/removeCategories"@) == 48,
{
    lemma_path_lengths();
    lemma_path_chars_0();
    lemma_path_chars_1();
    lemma_path_chars_2();
}

proof fn lemma_path_number_49()
    ensures
        number_of_path("api/v2/torrents/addTags"@) == 49,
{
    lemma_path_lengths();
    lemma_path_chars_0();
    lemma_path_chars_1();
    lemma_path_chars_2();
}

proof fn lemma_path_number_50()
    ensures
        number_of_path("api/v2/torrents/removeTags"@) == 50,
{
    lemma_path_lengths();
    lemma_path_chars_0();
    lemma_path_chars_1();
    lemma_path_chars_2();
}

proof fn lemma_path_number_51()
    ensures
        number_of_path("api/v2/torrents/tags"@) == 51,
{
    lemma_path_lengths();
    lemma_path_chars_0();
    lemma_path_chars_1();
    lemma_path_chars_2();
}

proof fn lemma_path_number_52()
    ensures
        number_of_path("api/v2/torrents/createTags"@) == 52,
{
    lemma_path_lengths();
    lemma_path_chars_0();
    lemma_path_chars_1();
    lemma_path_chars_2();
}

proof fn lemma_path_number_53()
    ensures
        number_of_path("api/v2/torrents/deleteTags"@) == 53,
{
    lemma_path_lengths();
    lemma_path_chars_0();
    lemma_path_chars_1();
    lemma_path_chars_2();
}

proof fn lemma_path_number_54()
    ensures
        number_of_path("api/v2/torrents/setAutoManagement"@) == 54,
{
    lemma_path_lengths();
    lemma_path_chars_0();
    lemma_path_chars_1();
    lemma_path_chars_2();
}

proof fn lemma_path_number_55()
    ensures
        number_of_path("api/v2/torrents/toggleSequentialDownload"@) == 55,
{
    lemma_path_lengths();
    lemma_path_chars_0();
    lemma_path_chars_1();
    lemma_path_chars_2();
}

proof fn lemma_path_number_56()
    ensures
        number_of_path("api/v2/torrents/toggleFirstLastPiecePrio"@) == 56,
{
    lemma_path_lengths();
    lemma_path_chars_0();
    lemma_path_chars_1();
    lemma_path_chars_2();
}

proof fn lemma_path_number_57()
    ensures
        number_of_path("api/v2/torrents/setForceStart"@) == 57,
{
    lemma_path_lengths();
    lemma_path_chars_0();
    lemma_path_chars_1();
    lemma_path_chars_2();
}

proof fn lemma_path_number_58()
    ensures
        number_of_path("api/v2/torrents/setSuperSeeding"@) == 58,
{
    lemma_path_lengths();
    lemma_path_chars_0();
    lemma_path_chars_1();
    lemma_path_chars_2();
}

proof fn lemma_path_number_59()
    ensures
        number_of_path("api/v2/torrents/renameFile"@) == 59,
{
    lemma_path_lengths();
    lemma_path_chars_0();
    lemma_path_chars_1();
    lemma_path_chars_2();
}

proof fn lemma_path_number_60()
    ensures
        number_of_path("api/v2/torrents/renameFolder"@) == 60,
{
    lemma_path_lengths();
    lemma_path_chars_0();
    lemma_path_chars_1();
    lemma_path_chars_2();
}

proof fn lemma_path_number_61()
    ensures
        number_of_path("api/v2/search/start"@) == 61,
{
    lemma_path_lengths();
    lemma_path_chars_0();
    lemma_path_chars_1();
    lemma_path_chars_2();
}

proof fn lemma_path_number_62()
    ensures
        number_of_path("api/v2/search/stop"@) == 62,
{
    lemma_path_lengths();
    lemma_path_chars_0();
    lemma_path_chars_1();
    lemma_path_chars_2();
}

proof fn lemma_path_number_63()
    ensures
        number_of_path("api/v2/search/status"@) == 63,
{
    lemma_path_lengths();
    lemma_path_chars_0();
    lemma_path_chars_1();
    lemma_path_chars_2();
}

proof fn lemma_path_number_64()
    ensures
        number_of_path("api/v2/search/results"@) == 64,
{
    lemma_path_lengths();
    lemma_path_chars_0();
    lemma_path_chars_1();
    lemma_path_chars_2();
}

proof fn lemma_path_numbers(e: Endpoint)
    ensures
        number_of_path(e.path_spec()) == endpoint_number(e),
{
    match e {
        Endpoint::AuthLogin { .. } => lemma_path_number_0(),
        Endpoint::AuthLogout => lemma_path_number_1(),
        Endpoint::AppVersion => lemma_path_number_2(),
        Endpoint::AppWebApiVersion => lemma_path_number_3(),
        Endpoint::AppBuildInfo => lemma_path_number_4(),
        Endpoint::AppPreferences => lemma_path_number_5(),
        Endpoint::AppSetPreferences { .. } => lemma_path_number_6(),
        Endpoint::AppDefaultSavePath => lemma_path_number_7(),
        Endpoint::LogMain { .. } => lemma_path_number_8(),
        Endpoint::LogPeers { .. } => lemma_path_number_9(),
        Endpoint::Maindata { .. } => lemma_path_number_10(),
        Endpoint::TorrentPeers { .. } => lemma_path_number_11(),
        Endpoint::TransferInfo => lemma_path_number_12(),
        Endpoint::SpeedLimitsMode => lemma_path_number_13(),
        Endpoint::ToggleSpeedLimitsMode => lemma_path_number_14(),
        Endpoint::DownloadLimit => lemma_path_number_15(),
        Endpoint::SetDownloadLimit { .. } => lemma_path_number_16(),
        Endpoint::UploadLimit => lemma_path_number_17(),
        Endpoint::SetUploadLimit { .. } => lemma_path_number_18(),
        Endpoint::BanPeers { .. } => lemma_path_number_19(),
        Endpoint::TorrentsInfo { .. } => lemma_path_number_20(),
        Endpoint::TorrentsProperties { .. } => lemma_path_number_21(),
        Endpoint::TorrentsTrackers { .. } => lemma_path_number_22(),
        Endpoint::TorrentsWebseeds { .. } => lemma_path_number_23(),
        Endpoint::TorrentsFiles { .. } => lemma_path_number_24(),
        Endpoint::TorrentsPieceStates { .. } => lemma_path_number_25(),
        Endpoint::TorrentsPieceHashes { .. } => lemma_path_number_26(),
        Endpoint::TorrentsPause { .. } => lemma_path_number_27(),
        Endpoint::TorrentsAdd { .. } => lemma_path_number_28(),
        Endpoint::TorrentsAddTrackers { .. } => lemma_path_number_29(),
        Endpoint::TorrentsEditTracker { .. } => lemma_path_number_30(),
        Endpoint::TorrentsRemoveTrackers { .. } => lemma_path_number_31(),
        Endpoint::TorrentsAddPeers { .. } => lemma_path_number_32(),
        Endpoint::TorrentsIncreasePrio { .. } => lemma_path_number_33(),
        Endpoint::TorrentsDecreasePrio { .. } => lemma_path_number_34(),
        Endpoint::TorrentsTopPrio { .. } => lemma_path_number_35(),
        Endpoint::TorrentsBottomPrio { .. } => lemma_path_number_36(),
        Endpoint::TorrentsDownloadLimit { .. } => lemma_path_number_37(),
        Endpoint::TorrentsSetDownloadLimit { .. } => lemma_path_number_38(),
        Endpoint::TorrentsSetShareLimits { .. } => lemma_path_number_39(),
        Endpoint::TorrentsUploadLimit { .. } => lemma_path_number_40(),
        Endpoint::TorrentsSetUploadLimit { .. } => lemma_path_number_41(),
        Endpoint::TorrentsSetLocation { .. } => lemma_path_number_42(),
        Endpoint::TorrentsRename { .. } => lemma_path_number_43(),
        Endpoint::TorrentsSetCategory { .. } => lemma_path_number_44(),
        Endpoint::TorrentsCategories => lemma_path_number_45(),
        Endpoint::TorrentsCreateCategory { .. } => lemma_path_number_46(),
        Endpoint::TorrentsEditCategory { .. } => lemma_path_number_47(),
        Endpoint::TorrentsRemoveCategories { .. } => lemma_path_number_48(),
        Endpoint::TorrentsAddTags { .. } => lemma_path_number_49(),
        Endpoint::TorrentsRemoveTags { .. } => lemma_path_number_50(),
        Endpoint::TorrentsTags => lemma_path_number_51(),
        Endpoint::TorrentsCreateTags { .. } => lemma_path_number_52(),
        Endpoint::TorrentsDeleteTags { .. } => lemma_path_number_53(),
        Endpoint::TorrentsSetAutoManagement { .. } => lemma_path_number_54(),
        Endpoint::TorrentsToggleSequentialDownload { .. } => lemma_path_number_55(),
        Endpoint::TorrentsToggleFirstLastPiecePrio { .. } => lemma_path_number_56(),
        Endpoint::TorrentsSetForceStart { .. } => lemma_path_number_57(),
        Endpoint::TorrentsSetSuperSeeding { .. } => lemma_path_number_58(),
        Endpoint::TorrentsRenameFile { .. } => lemma_path_number_59(),
        Endpoint::TorrentsRenameFolder { .. } => lemma_path_number_60(),
        Endpoint::SearchStart { .. } => lemma_path_number_61(),
        Endpoint::SearchStop { .. } => lemma_path_number_62(),
        Endpoint::SearchStatus { .. } => lemma_path_number_63(),
        Endpoint::SearchResults { .. } => lemma_path_number_64(),
    }
}

/// Every endpoint is sent to the path of its Web API method, with its HTTP method.
pub proof fn web_api_paths(e: Endpoint)
    ensures
        e is AuthLogin ==> e.path_spec() == "api/v2/auth/login"@ && e.method_spec() == HttpMethod::Post,
        e is AuthLogout ==> e.path_spec() == "api/v2/auth/logout"@ && e.method_spec() == HttpMethod::Post,
        e is AppVersion ==> e.path_spec() == "api/v2/app/version"@ && e.method_spec() == HttpMethod::Get,
        e is AppWebApiVersion ==> e.path_spec() == "api/v2/app/webapiVersion"@ && e.method_spec() == HttpMethod::Get,
        e is AppBuildInfo ==> e.path_spec() == "api/v2/app/buildInfo"@ && e.method_spec() == HttpMethod::Get,
        e is AppPreferences ==> e.path_spec() == "api/v2/app/preferences"@ && e.method_spec() == HttpMethod::Get,
        e is AppSetPreferences ==> e.path_spec() == "api/v2/app/setPreferences"@ && e.method_spec() == HttpMethod::Post,
        e is AppDefaultSavePath ==> e.path_spec() == "api/v2/app/defaultSavePath"@ && e.method_spec() == HttpMethod::Get,
        e is LogMain ==> e.path_spec() == "api/v2/log/main"@ && e.method_spec() == HttpMethod::Get,
        e is LogPeers ==> e.path_spec() == "api/v2/log/peers"@ && e.method_spec() == HttpMethod::Get,
        e is Maindata ==> e.path_spec() == "api/v2/sync/maindata"@ && e.method_spec() == HttpMethod::Get,
        e is TorrentPeers ==> e.path_spec() == "api/v2/sync/torrentPeers"@ && e.method_spec() == HttpMethod::Get,
        e is TransferInfo ==> e.path_spec() == "api/v2/transfer/info"@ && e.method_spec() == HttpMethod::Get,
        e is SpeedLimitsMode ==> e.path_spec() == "api/v2/transfer/speedLimitsMode"@ && e.method_spec() == HttpMethod::Get,
        e is ToggleSpeedLimitsMode ==> e.path_spec() == "api/v2/transfer/toggleSpeedLimitsMode"@ && e.method_spec() == HttpMethod::Post,
        e is DownloadLimit ==> e.path_spec() == "api/v2/transfer/downloadLimit"@ && e.method_spec() == HttpMethod::Get,
        e is SetDownloadLimit ==> e.path_spec() == "api/v2/transfer/setDownloadLimit"@ && e.method_spec() == HttpMethod::Post,
        e is UploadLimit ==> e.path_spec() == "api/v2/transfer/uploadLimit"@ && e.method_spec() == HttpMethod::Get,
        e is SetUploadLimit ==> e.path_spec() == "api/v2/transfer/setUploadLimit"@ && e.method_spec() == HttpMethod::Post,
        e is BanPeers ==> e.path_spec() == "api/v2/transfer/banPeers"@ && e.method_spec() == HttpMethod::Post,
        e is TorrentsInfo ==> e.path_spec() == "api/v2/torrents/info"@ && e.method_spec() == HttpMethod::Get,
        e is TorrentsProperties ==> e.path_spec() == "api/v2/torrents/properties"@ && e.method_spec() == HttpMethod::Get,
        e is TorrentsTrackers ==> e.path_spec() == "api/v2/torrents/trackers"@ && e.method_spec() == HttpMethod::Get,
        e is TorrentsWebseeds ==> e.path_spec() == "api/v2/torrents/webseeds"@ && e.method_spec() == HttpMethod::Get,
        e is TorrentsFiles ==> e.path_spec() == "api/v2/torrents/files"@ && e.method_spec() == HttpMethod::Get,
        e is TorrentsPieceStates ==> e.path_spec() == "api/v2/torrents/pieceStates"@ && e.method_spec() == HttpMethod::Get,
        e is TorrentsPieceHashes ==> e.path_spec() == "api/v2/torrents/pieceHashes"@ && e.method_spec() == HttpMethod::Get,
        e is TorrentsPause ==> e.path_spec() == "api/v2/torrents/pause"@ && e.method_spec() == HttpMethod::Post,
        e is TorrentsAdd ==> e.path_spec() == "api/v2/torrents/add"@ && e.method_spec() == HttpMethod::Post,
        e is TorrentsAddTrackers ==> e.path_spec() == "api/v2/torrents/addTrackers"@ && e.method_spec() == HttpMethod::Post,
        e is TorrentsEditTracker ==> e.path_spec() == "api/v2/torrents/editTracker"@ && e.method_spec() == HttpMethod::Post,
        e is TorrentsRemoveTrackers ==> e.path_spec() == "api/v2/torrents/removeTrackers"@ && e.method_spec() == HttpMethod::Post,
        e is TorrentsAddPeers ==> e.path_spec() == "api/v2/torrents/addPeers"@ && e.method_spec() == HttpMethod::Post,
        e is TorrentsIncreasePrio ==> e.path_spec() == "api/v2/torrents/increasePrio"@ && e.method_spec() == HttpMethod::Post,
        e is TorrentsDecreasePrio ==> e.path_spec() == "api/v2/torrents/decreasePrio"@ && e.method_spec() == HttpMethod::Post,
        e is TorrentsTopPrio ==> e.path_spec() == "api/v2/torrents/topPrio"@ && e.method_spec() == HttpMethod::Post,
        e is TorrentsBottomPrio ==> e.path_spec() == "api/v2/torrents/bottomPrio"@ && e.method_spec() == HttpMethod::Post,
        e is TorrentsDownloadLimit ==> e.path_spec() == "api/v2/torrents/downloadLimit"@ && e.method_spec() == HttpMethod::Post,
        e is TorrentsSetDownloadLimit ==> e.path_spec() == "api/v2/torrents/setDownloadLimit"@ && e.method_spec() == HttpMethod::Post,
        e is TorrentsSetShareLimits ==> e.path_spec() == "api/v2/torrents/setShareLimits"@ && e.method_spec() == HttpMethod::Post,
        e is TorrentsUploadLimit ==> e.path_spec() == "api/v2/torrents/uploadLimit"@ && e.method_spec() == HttpMethod::Post,
        e is TorrentsSetUploadLimit ==> e.path_spec() == "api/v2/torrents/setUploadLimit"@ && e.method_spec() == HttpMethod::Post,
        e is TorrentsSetLocation ==> e.path_spec() == "api/v2/torrents/setLocation"@ && e.method_spec() == HttpMethod::Post,
        e is TorrentsRename ==> e.path_spec() == "api/v2/torrents/rename"@ && e.method_spec() == HttpMethod::Post,
        e is TorrentsSetCategory ==> e.path_spec() == "api/v2/torrents/setCategory"@ && e.method_spec() == HttpMethod::Post,
        e is TorrentsCategories ==> e.path_spec() == "api/v2/torrents/categories"@ && e.method_spec() == HttpMethod::Get,
        e is TorrentsCreateCategory ==> e.path_spec() == "api/v2/torrents/createCategory"@ && e.method_spec() == HttpMethod::Post,
        e is TorrentsEditCategory ==> e.path_spec() == "api/v2/torrents/editCategory"@ && e.method_spec() == HttpMethod::Post,
        e is TorrentsRemoveCategories ==> e.path_spec() == "api/v2/torrents/removeCategories"@ && e.method_spec() == HttpMethod::Post,
        e is TorrentsAddTags ==> e.path_spec() == "api/v2/torrents/addTags"@ && e.method_spec() == HttpMethod::Post,
        e is TorrentsRemoveTags ==> e.path_spec() == "api/v2/torrents/removeTags"@ && e.method_spec() == HttpMethod::Post,
        e is TorrentsTags ==> e.path_spec() == "api/v2/torrents/tags"@ && e.method_spec() == HttpMethod::Get,
        e is TorrentsCreateTags ==> e.path_spec() == "api/v2/torrents/createTags"@ && e.method_spec() == HttpMethod::Post,
        e is TorrentsDeleteTags ==> e.path_spec() == "api/v2/torrents/deleteTags"@ && e.method_spec() == HttpMethod::Post,
        e is TorrentsSetAutoManagement ==> e.path_spec() == "api/v2/torrents/setAutoManagement"@ && e.method_spec() == HttpMethod::Post,
        e is TorrentsToggleSequentialDownload ==> e.path_spec() == "api/v2/torrents/toggleSequentialDownload"@ && e.method_spec() == HttpMethod::Post,
        e is TorrentsToggleFirstLastPiecePrio ==> e.path_spec() == "api/v2/torrents/toggleFirstLastPiecePrio"@ && e.method_spec() == HttpMethod::Post,
        e is TorrentsSetForceStart ==> e.path_spec() == "api/v2/torrents/setForceStart"@ && e.method_spec() == HttpMethod::Post,
        e is TorrentsSetSuperSeeding ==> e.path_spec() == "api/v2/torrents/setSuperSeeding"@ && e.method_spec() == HttpMethod::Post,
        e is TorrentsRenameFile ==> e.path_spec() == "api/v2/torrents/renameFile"@ && e.method_spec() == HttpMethod::Post,
        e is TorrentsRenameFolder ==> e.path_spec() == "api/v2/torrents/renameFolder"@ && e.method_spec() == HttpMethod::Post,
        e is SearchStart ==> e.path_spec() == "api/v2/search/start"@ && e.method_spec() == HttpMethod::Post,
        e is SearchStop ==> e.path_spec() == "api/v2/search/stop"@ && e.method_spec() == HttpMethod::Post,
        e is SearchStatus ==> e.path_spec() == "api/v2/search/status"@ && e.method_spec() == HttpMethod::Get,
        e is SearchResults ==> e.path_spec() == "api/v2/search/results"@ && e.method_spec() == HttpMethod::Get,
{
}

/// No two endpoints are sent to the same path.
pub proof fn distinct_endpoints_have_distinct_paths(e1: Endpoint, e2: Endpoint)
    requires
        endpoint_number(e1) != endpoint_number(e2),
    ensures
        e1.path_spec() != e2.path_spec(),
{
    lemma_path_numbers(e1);
    lemma_path_numbers(e2);
}

/// Every parameter of every endpoint is sent under its own name with the
/// caller's value written as text, in the query of a `GET` request and the form
/// of a `POST` request; an optional parameter is sent exactly when the caller
/// gives it; a request with fixed parameters sends no others.
pub proof fn parameters_sent_by_name(e: Endpoint)
    ensures
        e matches Endpoint::AuthLogin { username, password } ==> (e.form_spec() matches Some(ps) && ps.len() == 2 && lookup(ps, "username"@) == Some(username@) && lookup(ps, "password"@) == Some(password@)
            && e.query_spec() is None && e.multipart_spec() is None),
        e is AuthLogout ==> e.query_spec() is None && e.form_spec() is None && e.multipart_spec() is None,
        e is AppVersion ==> e.query_spec() is None && e.form_spec() is None && e.multipart_spec() is None,
        e is AppWebApiVersion ==> e.query_spec() is None && e.form_spec() is None && e.multipart_spec() is None,
        e is AppBuildInfo ==> e.query_spec() is None && e.form_spec() is None && e.multipart_spec() is None,
        e is AppPreferences ==> e.query_spec() is None && e.form_spec() is None && e.multipart_spec() is None,
        e matches Endpoint::AppSetPreferences { json } ==> (e.form_spec() matches Some(ps) && ps.len() == 1 && lookup(ps, "json"@) == Some(json@)
            && e.query_spec() is None && e.multipart_spec() is None),
        e is AppDefaultSavePath ==> e.query_spec() is None && e.form_spec() is None && e.multipart_spec() is None,
        e matches Endpoint::LogMain { q } ==> (e.query_spec() matches Some(ps) && lookup(ps, "normal"@) == opt_bool_text(q.normal) && lookup(ps, "info"@) == opt_bool_text(q.info) && lookup(ps, "warning"@) == opt_bool_text(q.warning) && lookup(ps, "critical"@) == opt_bool_text(q.critical) && lookup(ps, "last_known_id"@) == opt_i64_text(q.last_known_id)
            && e.form_spec() is None && e.multipart_spec() is None),
        e matches Endpoint::LogPeers { q } ==> (e.query_spec() matches Some(ps) && lookup(ps, "last_known_id"@) == opt_i64_text(q.last_known_id)
            && e.form_spec() is None && e.multipart_spec() is None),
        e matches Endpoint::Maindata { q } ==> (e.query_spec() matches Some(ps) && lookup(ps, "rid"@) == opt_i64_text(q.rid)
            && e.form_spec() is None && e.multipart_spec() is None),
        e matches Endpoint::TorrentPeers { q } ==> (e.query_spec() matches Some(ps) && lookup(ps, "hash"@) == Some(q.hash@) && lookup(ps, "rid"@) == opt_i64_text(q.rid)
            && e.form_spec() is None && e.multipart_spec() is None),
        e is TransferInfo ==> e.query_spec() is None && e.form_spec() is None && e.multipart_spec() is None,
        e is SpeedLimitsMode ==> e.query_spec() is None && e.form_spec() is None && e.multipart_spec() is None,
        e is ToggleSpeedLimitsMode ==> e.query_spec() is None && e.form_spec() is None && e.multipart_spec() is None,
        e is DownloadLimit ==> e.query_spec() is None && e.form_spec() is None && e.multipart_spec() is None,
        e matches Endpoint::SetDownloadLimit { limit } ==> (e.form_spec() matches Some(ps) && ps.len() == 1 && lookup(ps, "limit"@) == Some(decimal(limit as nat))
            && e.query_spec() is None && e.multipart_spec() is None),
        e is UploadLimit ==> e.query_spec() is None && e.form_spec() is None && e.multipart_spec() is None,
        e matches Endpoint::SetUploadLimit { limit } ==> (e.form_spec() matches Some(ps) && ps.len() == 1 && lookup(ps, "limit"@) == Some(decimal(limit as nat))
            && e.query_spec() is None && e.multipart_spec() is None),
        e matches Endpoint::BanPeers { peers } ==> (e.form_spec() matches Some(ps) && ps.len() == 1 && lookup(ps, "peers"@) == Some(list_text(peers, "|"@))
            && e.query_spec() is None && e.multipart_spec() is None),
        e matches Endpoint::TorrentsInfo { q } ==> (e.query_spec() matches Some(ps) && lookup(ps, "filter"@) == opt_text(q.filter) && lookup(ps, "category"@) == opt_text(q.category) && lookup(ps, "tag"@) == opt_text(q.tag) && lookup(ps, "sort"@) == opt_text(q.sort) && lookup(ps, "reverse"@) == opt_bool_text(q.reverse) && lookup(ps, "limit"@) == opt_i64_text(q.limit) && lookup(ps, "offset"@) == opt_i64_text(q.offset) && lookup(ps, "hashes"@) == opt_list_text(q.hashes, "|"@)
            && e.form_spec() is None && e.multipart_spec() is None),
        e matches Endpoint::TorrentsProperties { hash } ==> (e.query_spec() matches Some(ps) && ps.len() == 1 && lookup(ps, "hash"@) == Some(hash@)
            && e.form_spec() is None && e.multipart_spec() is None),
        e matches Endpoint::TorrentsTrackers { hash } ==> (e.query_spec() matches Some(ps) && ps.len() == 1 && lookup(ps, "hash"@) == Some(hash@)
            && e.form_spec() is None && e.multipart_spec() is None),
        e matches Endpoint::TorrentsWebseeds { hash } ==> (e.query_spec() matches Some(ps) && ps.len() == 1 && lookup(ps, "hash"@) == Some(hash@)
            && e.form_spec() is None && e.multipart_spec() is None),
        e matches Endpoint::TorrentsFiles { hash } ==> (e.query_spec() matches Some(ps) && ps.len() == 1 && lookup(ps, "hash"@) == Some(hash@)
            && e.form_spec() is None && e.multipart_spec() is None),
        e matches Endpoint::TorrentsPieceStates { hash } ==> (e.query_spec() matches Some(ps) && ps.len() == 1 && lookup(ps, "hash"@) == Some(hash@)
            && e.form_spec() is None && e.multipart_spec() is None),
        e matches Endpoint::TorrentsPieceHashes { hash } ==> (e.query_spec() matches Some(ps) && ps.len() == 1 && lookup(ps, "hash"@) == Some(hash@)
            && e.form_spec() is None && e.multipart_spec() is None),
        e matches Endpoint::TorrentsPause { hashes } ==> (e.form_spec() matches Some(ps) && ps.len() == 1 && lookup(ps, "hashes"@) == Some(list_text(hashes, "|"@))
            && e.query_spec() is None && e.multipart_spec() is None),
        e matches Endpoint::TorrentsAdd { mp } ==> (e.query_spec() is None && e.form_spec() is None
            && (e.multipart_spec() is Some <==> (mp.urls@.len() > 0 || mp.torrents@.len() > 0))
            && (e.multipart_spec() matches Some(m) ==> m.files == files_view(mp.torrents@)
                && lookup(m.text, "urls"@) == (if mp.urls@.len() > 0 {
                    Some(joined(views(mp.urls@), "\n"@))
                } else {
                    None
                }))),
        e matches Endpoint::TorrentsAddTrackers { hash, urls } ==> (e.form_spec() matches Some(ps) && ps.len() == 2 && lookup(ps, "hash"@) == Some(hash@) && lookup(ps, "urls"@) == Some(list_text(urls, "\n"@))
            && e.query_spec() is None && e.multipart_spec() is None),
        e matches Endpoint::TorrentsEditTracker { hash, orig_url, new_url } ==> (e.form_spec() matches Some(ps) && ps.len() == 3 && lookup(ps, "hash"@) == Some(hash@) && lookup(ps, "origUrl"@) == Some(orig_url@) && lookup(ps, "newUrl"@) == Some(new_url@)
            && e.query_spec() is None && e.multipart_spec() is None),
        e matches Endpoint::TorrentsRemoveTrackers { hash, urls } ==> (e.form_spec() matches Some(ps) && ps.len() == 2 && lookup(ps, "hash"@) == Some(hash@) && lookup(ps, "urls"@) == Some(list_text(urls, "|"@))
            && e.query_spec() is None && e.multipart_spec() is None),
        e matches Endpoint::TorrentsAddPeers { hashes, peers } ==> (e.form_spec() matches Some(ps) && ps.len() == 2 && lookup(ps, "hashes"@) == Some(list_text(hashes, "|"@)) && lookup(ps, "peers"@) == Some(list_text(peers, "|"@))
            && e.query_spec() is None && e.multipart_spec() is None),
        e matches Endpoint::TorrentsIncreasePrio { hashes } ==> (e.form_spec() matches Some(ps) && ps.len() == 1 && lookup(ps, "hashes"@) == Some(list_text(hashes, "|"@))
            && e.query_spec() is None && e.multipart_spec() is None),
        e matches Endpoint::TorrentsDecreasePrio { hashes } ==> (e.form_spec() matches Some(ps) && ps.len() == 1 && lookup(ps, "hashes"@) == Some(list_text(hashes, "|"@))
            && e.query_spec() is None && e.multipart_spec() is None),
        e matches Endpoint::TorrentsTopPrio { hashes } ==> (e.form_spec() matches Some(ps) && ps.len() == 1 && lookup(ps, "hashes"@) == Some(list_text(hashes, "|"@))
            && e.query_spec() is None && e.multipart_spec() is None),
        e matches Endpoint::TorrentsBottomPrio { hashes } ==> (e.form_spec() matches Some(ps) && ps.len() == 1 && lookup(ps, "hashes"@) == Some(list_text(hashes, "|"@))
            && e.query_spec() is None && e.multipart_spec() is None),
        e matches Endpoint::TorrentsDownloadLimit { hashes } ==> (e.form_spec() matches Some(ps) && ps.len() == 1 && lookup(ps, "hashes"@) == Some(list_text(hashes, "|"@))
            && e.query_spec() is None && e.multipart_spec() is None),
        e matches Endpoint::TorrentsSetDownloadLimit { hashes, limit } ==> (e.form_spec() matches Some(ps) && ps.len() == 2 && lookup(ps, "hashes"@) == Some(list_text(hashes, "|"@)) && lookup(ps, "limit"@) == Some(decimal(limit as nat))
            && e.query_spec() is None && e.multipart_spec() is None),
        e matches Endpoint::TorrentsSetShareLimits { hashes, ratio_limit, seeding_time_limit } ==> (e.form_spec() matches Some(ps) && ps.len() == 3 && lookup(ps, "hashes"@) == Some(list_text(hashes, "|"@)) && lookup(ps, "ratioLimit"@) == Some(ratio_limit@) && lookup(ps, "seedingTimeLimit"@) == Some(signed_decimal(seeding_time_limit as int))
            && e.query_spec() is None && e.multipart_spec() is None),
        e matches Endpoint::TorrentsUploadLimit { hashes } ==> (e.form_spec() matches Some(ps) && ps.len() == 1 && lookup(ps, "hashes"@) == Some(list_text(hashes, "|"@))
            && e.query_spec() is None && e.multipart_spec() is None),
        e matches Endpoint::TorrentsSetUploadLimit { hashes, limit } ==> (e.form_spec() matches Some(ps) && ps.len() == 2 && lookup(ps, "hashes"@) == Some(list_text(hashes, "|"@)) && lookup(ps, "limit"@) == Some(decimal(limit as nat))
            && e.query_spec() is None && e.multipart_spec() is None),
        e matches Endpoint::TorrentsSetLocation { hashes, location } ==> (e.form_spec() matches Some(ps) && ps.len() == 2 && lookup(ps, "hashes"@) == Some(list_text(hashes, "|"@)) && lookup(ps, "location"@) == Some(location@)
            && e.query_spec() is None && e.multipart_spec() is None),
        e matches Endpoint::TorrentsRename { hash, name } ==> (e.form_spec() matches Some(ps) && ps.len() == 2 && lookup(ps, "hash"@) == Some(hash@) && lookup(ps, "name"@) == Some(name@)
            && e.query_spec() is None && e.multipart_spec() is None),
        e matches Endpoint::TorrentsSetCategory { hashes, category } ==> (e.form_spec() matches Some(ps) && ps.len() == 2 && lookup(ps, "hashes"@) == Some(list_text(hashes, "|"@)) && lookup(ps, "category"@) == Some(category@)
            && e.query_spec() is None && e.multipart_spec() is None),
        e is TorrentsCategories ==> e.query_spec() is None && e.form_spec() is None && e.multipart_spec() is None,
        e matches Endpoint::TorrentsCreateCategory { category, save_path } ==> (e.form_spec() matches Some(ps) && ps.len() == 2 && lookup(ps, "category"@) == Some(category@) && lookup(ps, "savePath"@) == Some(save_path@)
            && e.query_spec() is None && e.multipart_spec() is None),
        e matches Endpoint::TorrentsEditCategory { category, save_path } ==> (e.form_spec() matches Some(ps) && ps.len() == 2 && lookup(ps, "category"@) == Some(category@) && lookup(ps, "savePath"@) == Some(save_path@)
            && e.query_spec() is None && e.multipart_spec() is None),
        e matches Endpoint::TorrentsRemoveCategories { categories } ==> (e.form_spec() matches Some(ps) && ps.len() == 1 && lookup(ps, "categories"@) == Some(list_text(categories, "\n"@))
            && e.query_spec() is None && e.multipart_spec() is None),
        e matches Endpoint::TorrentsAddTags { hashes, tags } ==> (e.form_spec() matches Some(ps) && ps.len() == 2 && lookup(ps, "hashes"@) == Some(list_text(hashes, "|"@)) && lookup(ps, "tags"@) == Some(list_text(tags, ","@))
            && e.query_spec() is None && e.multipart_spec() is None),
        e matches Endpoint::TorrentsRemoveTags { hashes, tags } ==> (e.form_spec() matches Some(ps) && ps.len() == 2 && lookup(ps, "hashes"@) == Some(list_text(hashes, "|"@)) && lookup(ps, "tags"@) == Some(list_text(tags, ","@))
            && e.query_spec() is None && e.multipart_spec() is None),
        e is TorrentsTags ==> e.query_spec() is None && e.form_spec() is None && e.multipart_spec() is None,
        e matches Endpoint::TorrentsCreateTags { tags } ==> (e.form_spec() matches Some(ps) && ps.len() == 1 && lookup(ps, "tags"@) == Some(list_text(tags, ","@))
            && e.query_spec() is None && e.multipart_spec() is None),
        e matches Endpoint::TorrentsDeleteTags { tags } ==> (e.form_spec() matches Some(ps) && ps.len() == 1 && lookup(ps, "tags"@) == Some(list_text(tags, ","@))
            && e.query_spec() is None && e.multipart_spec() is None),
        e matches Endpoint::TorrentsSetAutoManagement { hashes, enable } ==> (e.form_spec() matches Some(ps) && ps.len() == 2 && lookup(ps, "hashes"@) == Some(list_text(hashes, "|"@)) && lookup(ps, "enable"@) == Some(bool_text(enable))
            && e.query_spec() is None && e.multipart_spec() is None),
        e matches Endpoint::TorrentsToggleSequentialDownload { hashes } ==> (e.form_spec() matches Some(ps) && ps.len() == 1 && lookup(ps, "hashes"@) == Some(list_text(hashes, "|"@))
            && e.query_spec() is None && e.multipart_spec() is None),
        e matches Endpoint::TorrentsToggleFirstLastPiecePrio { hashes } ==> (e.form_spec() matches Some(ps) && ps.len() == 1 && lookup(ps, "hashes"@) == Some(list_text(hashes, "|"@))
            && e.query_spec() is None && e.multipart_spec() is None),
        e matches Endpoint::TorrentsSetForceStart { hashes, value } ==> (e.form_spec() matches Some(ps) && ps.len() == 2 && lookup(ps, "hashes"@) == Some(list_text(hashes, "|"@)) && lookup(ps, "value"@) == Some(bool_text(value))
            && e.query_spec() is None && e.multipart_spec() is None),
        e matches Endpoint::TorrentsSetSuperSeeding { hashes, value } ==> (e.form_spec() matches Some(ps) && ps.len() == 2 && lookup(ps, "hashes"@) == Some(list_text(hashes, "|"@)) && lookup(ps, "value"@) == Some(bool_text(value))
            && e.query_spec() is None && e.multipart_spec() is None),
        e matches Endpoint::TorrentsRenameFile { hash, old_path, new_path } ==> (e.form_spec() matches Some(ps) && ps.len() == 3 && lookup(ps, "hash"@) == Some(hash@) && lookup(ps, "oldPath"@) == Some(old_path@) && lookup(ps, "newPath"@) == Some(new_path@)
            && e.query_spec() is None && e.multipart_spec() is None),
        e matches Endpoint::TorrentsRenameFolder { hash, old_path, new_path } ==> (e.form_spec() matches Some(ps) && ps.len() == 3 && lookup(ps, "hash"@) == Some(hash@) && lookup(ps, "oldPath"@) == Some(old_path@) && lookup(ps, "newPath"@) == Some(new_path@)
            && e.query_spec() is None && e.multipart_spec() is None),
        e matches Endpoint::SearchStart { pattern, plugins, category } ==> (e.form_spec() matches Some(ps) && ps.len() == 3 && lookup(ps, "pattern"@) == Some(pattern@) && lookup(ps, "plugins"@) == Some(plugins@) && lookup(ps, "category"@) == Some(category@)
            && e.query_spec() is None && e.multipart_spec() is None),
        e matches Endpoint::SearchStop { id } ==> (e.form_spec() matches Some(ps) && ps.len() == 1 && lookup(ps, "id"@) == Some(decimal(id as nat))
            && e.query_spec() is None && e.multipart_spec() is None),
        e matches Endpoint::SearchStatus { id } ==> (e.query_spec() matches Some(ps) && lookup(ps, "id"@) == opt_u64_text(id)
            && e.form_spec() is None && e.multipart_spec() is None),
        e matches Endpoint::SearchResults { id, limit, offset } ==> (e.query_spec() matches Some(ps) && lookup(ps, "id"@) == Some(decimal(id as nat)) && lookup(ps, "limit"@) == opt_i64_text(limit) && lookup(ps, "offset"@) == opt_i64_text(offset)
            && e.form_spec() is None && e.multipart_spec() is None),
{
    match e {
        Endpoint::AuthLogin { .. } => lemma_parameters_authlogin(e),
        Endpoint::AuthLogout => lemma_parameters_authlogout(e),
        Endpoint::AppVersion => lemma_parameters_appversion(e),
        Endpoint::AppWebApiVersion => lemma_parameters_appwebapiversion(e),
        Endpoint::AppBuildInfo => lemma_parameters_appbuildinfo(e),
        Endpoint::AppPreferences => lemma_parameters_apppreferences(e),
        Endpoint::AppSetPreferences { .. } => lemma_parameters_appsetpreferences(e),
        Endpoint::AppDefaultSavePath => lemma_parameters_appdefaultsavepath(e),
        Endpoint::LogMain { .. } => lemma_parameters_logmain(e),
        Endpoint::LogPeers { .. } => lemma_parameters_logpeers(e),
        Endpoint::Maindata { .. } => lemma_parameters_maindata(e),
        Endpoint::TorrentPeers { .. } => lemma_parameters_torrentpeers(e),
        Endpoint::TransferInfo => lemma_parameters_transferinfo(e),
        Endpoint::SpeedLimitsMode => lemma_parameters_speedlimitsmode(e),
        Endpoint::ToggleSpeedLimitsMode => lemma_parameters_togglespeedlimitsmode(e),
        Endpoint::DownloadLimit => lemma_parameters_downloadlimit(e),
        Endpoint::SetDownloadLimit { .. } => lemma_parameters_setdownloadlimit(e),
        Endpoint::UploadLimit => lemma_parameters_uploadlimit(e),
        Endpoint::SetUploadLimit { .. } => lemma_parameters_setuploadlimit(e),
        Endpoint::BanPeers { .. } => lemma_parameters_banpeers(e),
        Endpoint::TorrentsInfo { .. } => lemma_parameters_torrentsinfo(e),
        Endpoint::TorrentsProperties { .. } => lemma_parameters_torrentsproperties(e),
        Endpoint::TorrentsTrackers { .. } => lemma_parameters_torrentstrackers(e),
        Endpoint::TorrentsWebseeds { .. } => lemma_parameters_torrentswebseeds(e),
        Endpoint::TorrentsFiles { .. } => lemma_parameters_torrentsfiles(e),
        Endpoint::TorrentsPieceStates { .. } => lemma_parameters_torrentspiecestates(e),
        Endpoint::TorrentsPieceHashes { .. } => lemma_parameters_torrentspiecehashes(e),
        Endpoint::TorrentsPause { .. } => lemma_parameters_torrentspause(e),
        Endpoint::TorrentsAdd { .. } => lemma_parameters_torrentsadd(e),
        Endpoint::TorrentsAddTrackers { .. } => lemma_parameters_torrentsaddtrackers(e),
        Endpoint::TorrentsEditTracker { .. } => lemma_parameters_torrentsedittracker(e),
        Endpoint::TorrentsRemoveTrackers { .. } => lemma_parameters_torrentsremovetrackers(e),
        Endpoint::TorrentsAddPeers { .. } => lemma_parameters_torrentsaddpeers(e),
        Endpoint::TorrentsIncreasePrio { .. } => lemma_parameters_torrentsincreaseprio(e),
        Endpoint::TorrentsDecreasePrio { .. } => lemma_parameters_torrentsdecreaseprio(e),
        Endpoint::TorrentsTopPrio { .. } => lemma_parameters_torrentstopprio(e),
        Endpoint::TorrentsBottomPrio { .. } => lemma_parameters_torrentsbottomprio(e),
        Endpoint::TorrentsDownloadLimit { .. } => lemma_parameters_torrentsdownloadlimit(e),
        Endpoint::TorrentsSetDownloadLimit { .. } => lemma_parameters_torrentssetdownloadlimit(e),
        Endpoint::TorrentsSetShareLimits { .. } => lemma_parameters_torrentssetsharelimits(e),
        Endpoint::TorrentsUploadLimit { .. } => lemma_parameters_torrentsuploadlimit(e),
        Endpoint::TorrentsSetUploadLimit { .. } => lemma_parameters_torrentssetuploadlimit(e),
        Endpoint::TorrentsSetLocation { .. } => lemma_parameters_torrentssetlocation(e),
        Endpoint::TorrentsRename { .. } => lemma_parameters_torrentsrename(e),
        Endpoint::TorrentsSetCategory { .. } => lemma_parameters_torrentssetcategory(e),
        Endpoint::TorrentsCategories => lemma_parameters_torrentscategories(e),
        Endpoint::TorrentsCreateCategory { .. } => lemma_parameters_torrentscreatecategory(e),
        Endpoint::TorrentsEditCategory { .. } => lemma_parameters_torrentseditcategory(e),
        Endpoint::TorrentsRemoveCategories { .. } => lemma_parameters_torrentsremovecategories(e),
        Endpoint::TorrentsAddTags { .. } => lemma_parameters_torrentsaddtags(e),
        Endpoint::TorrentsRemoveTags { .. } => lemma_parameters_torrentsremovetags(e),
        Endpoint::TorrentsTags => lemma_parameters_torrentstags(e),
        Endpoint::TorrentsCreateTags { .. } => lemma_parameters_torrentscreatetags(e),
        Endpoint::TorrentsDeleteTags { .. } => lemma_parameters_torrentsdeletetags(e),
        Endpoint::TorrentsSetAutoManagement { .. } => lemma_parameters_torrentssetautomanagement(e),
        Endpoint::TorrentsToggleSequentialDownload { .. } => lemma_parameters_torrentstogglesequentialdownload(e),
        Endpoint::TorrentsToggleFirstLastPiecePrio { .. } => lemma_parameters_torrentstogglefirstlastpieceprio(e),
        Endpoint::TorrentsSetForceStart { .. } => lemma_parameters_torrentssetforcestart(e),
        Endpoint::TorrentsSetSuperSeeding { .. } => lemma_parameters_torrentssetsuperseeding(e),
        Endpoint::TorrentsRenameFile { .. } => lemma_parameters_torrentsrenamefile(e),
        Endpoint::TorrentsRenameFolder { .. } => lemma_parameters_torrentsrenamefolder(e),
        Endpoint::SearchStart { .. } => lemma_parameters_searchstart(e),
        Endpoint::SearchStop { .. } => lemma_parameters_searchstop(e),
        Endpoint::SearchStatus { .. } => lemma_parameters_searchstatus(e),
        Endpoint::SearchResults { .. } => lemma_parameters_searchresults(e),
    }
}

proof fn lemma_parameters_authlogin(e: Endpoint)
    requires
        e is AuthLogin,
    ensures
        e matches Endpoint::AuthLogin { username, password } ==> (e.form_spec() matches Some(ps) && ps.len() == 2 && lookup(ps, "username"@) == Some(username@) && lookup(ps, "password"@) == Some(password@)
            && e.query_spec() is None && e.multipart_spec() is None),
{
    broadcast use {lookup_append, lookup_opt_param};
    reveal_with_fuel(lookup, 4);
    lemma_names_differ_authlogin();
}

proof fn lemma_parameters_authlogout(e: Endpoint)
    requires
        e is AuthLogout,
    ensures
        e is AuthLogout ==> e.query_spec() is None && e.form_spec() is None && e.multipart_spec() is None,
{
    broadcast use {lookup_append, lookup_opt_param};
    reveal_with_fuel(lookup, 4);
}

proof fn lemma_parameters_appversion(e: Endpoint)
    requires
        e is AppVersion,
    ensures
        e is AppVersion ==> e.query_spec() is None && e.form_spec() is None && e.multipart_spec() is None,
{
    broadcast use {lookup_append, lookup_opt_param};
    reveal_with_fuel(lookup, 4);
}

proof fn lemma_parameters_appwebapiversion(e: Endpoint)
    requires
        e is AppWebApiVersion,
    ensures
        e is AppWebApiVersion ==> e.query_spec() is None && e.form_spec() is None && e.multipart_spec() is None,
{
    broadcast use {lookup_append, lookup_opt_param};
    reveal_with_fuel(lookup, 4);
}

proof fn lemma_parameters_appbuildinfo(e: Endpoint)
    requires
        e is AppBuildInfo,
    ensures
        e is AppBuildInfo ==> e.query_spec() is None && e.form_spec() is None && e.multipart_spec() is None,
{
    broadcast use {lookup_append, lookup_opt_param};
    reveal_with_fuel(lookup, 4);
}

proof fn lemma_parameters_apppreferences(e: Endpoint)
    requires
        e is AppPreferences,
    ensures
        e is AppPreferences ==> e.query_spec() is None && e.form_spec() is None && e.multipart_spec() is None,
{
    broadcast use {lookup_append, lookup_opt_param};
    reveal_with_fuel(lookup, 4);
}

proof fn lemma_parameters_appsetpreferences(e: Endpoint)
    requires
        e is AppSetPreferences,
    ensures
        e matches Endpoint::AppSetPreferences { json } ==> (e.form_spec() matches Some(ps) && ps.len() == 1 && lookup(ps, "json"@) == Some(json@)
            && e.query_spec() is None && e.multipart_spec() is None),
{
    broadcast use {lookup_append, lookup_opt_param};
    reveal_with_fuel(lookup, 4);
}

proof fn lemma_parameters_appdefaultsavepath(e: Endpoint)
    requires
        e is AppDefaultSavePath,
    ensures
        e is AppDefaultSavePath ==> e.query_spec() is None && e.form_spec() is None && e.multipart_spec() is None,
{
    broadcast use {lookup_append, lookup_opt_param};
    reveal_with_fuel(lookup, 4);
}

proof fn lemma_parameters_logmain(e: Endpoint)
    requires
        e is LogMain,
    ensures
        e matches Endpoint::LogMain { q } ==> (e.query_spec() matches Some(ps) && lookup(ps, "normal"@) == opt_bool_text(q.normal) && lookup(ps, "info"@) == opt_bool_text(q.info) && lookup(ps, "warning"@) == opt_bool_text(q.warning) && lookup(ps, "critical"@) == opt_bool_text(q.critical) && lookup(ps, "last_known_id"@) == opt_i64_text(q.last_known_id)
            && e.form_spec() is None && e.multipart_spec() is None),
{
    broadcast use {lookup_append, lookup_opt_param};
    reveal_with_fuel(lookup, 4);
    lemma_names_differ_logmain();
}

proof fn lemma_parameters_logpeers(e: Endpoint)
    requires
        e is LogPeers,
    ensures
        e matches Endpoint::LogPeers { q } ==> (e.query_spec() matches Some(ps) && lookup(ps, "last_known_id"@) == opt_i64_text(q.last_known_id)
            && e.form_spec() is None && e.multipart_spec() is None),
{
    broadcast use {lookup_append, lookup_opt_param};
    reveal_with_fuel(lookup, 4);
}

proof fn lemma_parameters_maindata(e: Endpoint)
    requires
        e is Maindata,
    ensures
        e matches Endpoint::Maindata { q } ==> (e.query_spec() matches Some(ps) && lookup(ps, "rid"@) == opt_i64_text(q.rid)
            && e.form_spec() is None && e.multipart_spec() is None),
{
    broadcast use {lookup_append, lookup_opt_param};
    reveal_with_fuel(lookup, 4);
}

proof fn lemma_parameters_torrentpeers(e: Endpoint)
    requires
        e is TorrentPeers,
    ensures
        e matches Endpoint::TorrentPeers { q } ==> (e.query_spec() matches Some(ps) && lookup(ps, "hash"@) == Some(q.hash@) && lookup(ps, "rid"@) == opt_i64_text(q.rid)
            && e.form_spec() is None && e.multipart_spec() is None),
{
    broadcast use {lookup_append, lookup_opt_param};
    reveal_with_fuel(lookup, 4);
    lemma_names_differ_torrentpeers();
}

proof fn lemma_parameters_transferinfo(e: Endpoint)
    requires
        e is TransferInfo,
    ensures
        e is TransferInfo ==> e.query_spec() is None && e.form_spec() is None && e.multipart_spec() is None,
{
    broadcast use {lookup_append, lookup_opt_param};
    reveal_with_fuel(lookup, 4);
}

proof fn lemma_parameters_speedlimitsmode(e: Endpoint)
    requires
        e is SpeedLimitsMode,
    ensures
        e is SpeedLimitsMode ==> e.query_spec() is None && e.form_spec() is None && e.multipart_spec() is None,
{
    broadcast use {lookup_append, lookup_opt_param};
    reveal_with_fuel(lookup, 4);
}

proof fn lemma_parameters_togglespeedlimitsmode(e: Endpoint)
    requires
        e is ToggleSpeedLimitsMode,
    ensures
        e is ToggleSpeedLimitsMode ==> e.query_spec() is None && e.form_spec() is None && e.multipart_spec() is None,
{
    broadcast use {lookup_append, lookup_opt_param};
    reveal_with_fuel(lookup, 4);
}

proof fn lemma_parameters_downloadlimit(e: Endpoint)
    requires
        e is DownloadLimit,
    ensures
        e is DownloadLimit ==> e.query_spec() is None && e.form_spec() is None && e.multipart_spec() is None,
{
    broadcast use {lookup_append, lookup_opt_param};
    reveal_with_fuel(lookup, 4);
}

proof fn lemma_parameters_setdownloadlimit(e: Endpoint)
    requires
        e is SetDownloadLimit,
    ensures
        e matches Endpoint::SetDownloadLimit { limit } ==> (e.form_spec() matches Some(ps) && ps.len() == 1 && lookup(ps, "limit"@) == Some(decimal(limit as nat))
            && e.query_spec() is None && e.multipart_spec() is None),
{
    broadcast use {lookup_append, lookup_opt_param};
    reveal_with_fuel(lookup, 4);
}

proof fn lemma_parameters_uploadlimit(e: Endpoint)
    requires
        e is UploadLimit,
    ensures
        e is UploadLimit ==> e.query_spec() is None && e.form_spec() is None && e.multipart_spec() is None,
{
    broadcast use {lookup_append, lookup_opt_param};
    reveal_with_fuel(lookup, 4);
}

proof fn lemma_parameters_setuploadlimit(e: Endpoint)
    requires
        e is SetUploadLimit,
    ensures
        e matches Endpoint::SetUploadLimit { limit } ==> (e.form_spec() matches Some(ps) && ps.len() == 1 && lookup(ps, "limit"@) == Some(decimal(limit as nat))
            && e.query_spec() is None && e.multipart_spec() is None),
{
    broadcast use {lookup_append, lookup_opt_param};
    reveal_with_fuel(lookup, 4);
}

proof fn lemma_parameters_banpeers(e: Endpoint)
    requires
        e is BanPeers,
    ensures
        e matches Endpoint::BanPeers { peers } ==> (e.form_spec() matches Some(ps) && ps.len() == 1 && lookup(ps, "peers"@) == Some(list_text(peers, "|"@))
            && e.query_spec() is None && e.multipart_spec() is None),
{
    broadcast use {lookup_append, lookup_opt_param};
    reveal_with_fuel(lookup, 4);
}

proof fn lemma_parameters_torrentsinfo(e: Endpoint)
    requires
        e is TorrentsInfo,
    ensures
        e matches Endpoint::TorrentsInfo { q } ==> (e.query_spec() matches Some(ps) && lookup(ps, "filter"@) == opt_text(q.filter) && lookup(ps, "category"@) == opt_text(q.category) && lookup(ps, "tag"@) == opt_text(q.tag) && lookup(ps, "sort"@) == opt_text(q.sort) && lookup(ps, "reverse"@) == opt_bool_text(q.reverse) && lookup(ps, "limit"@) == opt_i64_text(q.limit) && lookup(ps, "offset"@) == opt_i64_text(q.offset) && lookup(ps, "hashes"@) == opt_list_text(q.hashes, "|"@)
            && e.form_spec() is None && e.multipart_spec() is None),
{
    broadcast use {lookup_append, lookup_opt_param};
    reveal_with_fuel(lookup, 4);
    lemma_names_differ_torrentsinfo();
}

proof fn lemma_parameters_torrentsproperties(e: Endpoint)
    requires
        e is TorrentsProperties,
    ensures
        e matches Endpoint::TorrentsProperties { hash } ==> (e.query_spec() matches Some(ps) && ps.len() == 1 && lookup(ps, "hash"@) == Some(hash@)
            && e.form_spec() is None && e.multipart_spec() is None),
{
    broadcast use {lookup_append, lookup_opt_param};
    reveal_with_fuel(lookup, 4);
}

proof fn lemma_parameters_torrentstrackers(e: Endpoint)
    requires
        e is TorrentsTrackers,
    ensures
        e matches Endpoint::TorrentsTrackers { hash } ==> (e.query_spec() matches Some(ps) && ps.len() == 1 && lookup(ps, "hash"@) == Some(hash@)
            && e.form_spec() is None && e.multipart_spec() is None),
{
    broadcast use {lookup_append, lookup_opt_param};
    reveal_with_fuel(lookup, 4);
}

proof fn lemma_parameters_torrentswebseeds(e: Endpoint)
    requires
        e is TorrentsWebseeds,
    ensures
        e matches Endpoint::TorrentsWebseeds { hash } ==> (e.query_spec() matches Some(ps) && ps.len() == 1 && lookup(ps, "hash"@) == Some(hash@)
            && e.form_spec() is None && e.multipart_spec() is None),
{
    broadcast use {lookup_append, lookup_opt_param};
    reveal_with_fuel(lookup, 4);
}

proof fn lemma_parameters_torrentsfiles(e: Endpoint)
    requires
        e is TorrentsFiles,
    ensures
        e matches Endpoint::TorrentsFiles { hash } ==> (e.query_spec() matches Some(ps) && ps.len() == 1 && lookup(ps, "hash"@) == Some(hash@)
            && e.form_spec() is None && e.multipart_spec() is None),
{
    broadcast use {lookup_append, lookup_opt_param};
    reveal_with_fuel(lookup, 4);
}

proof fn lemma_parameters_torrentspiecestates(e: Endpoint)
    requires
        e is TorrentsPieceStates,
    ensures
        e matches Endpoint::TorrentsPieceStates { hash } ==> (e.query_spec() matches Some(ps) && ps.len() == 1 && lookup(ps, "hash"@) == Some(hash@)
            && e.form_spec() is None && e.multipart_spec() is None),
{
    broadcast use {lookup_append, lookup_opt_param};
    reveal_with_fuel(lookup, 4);
}

proof fn lemma_parameters_torrentspiecehashes(e: Endpoint)
    requires
        e is TorrentsPieceHashes,
    ensures
        e matches Endpoint::TorrentsPieceHashes { hash } ==> (e.query_spec() matches Some(ps) && ps.len() == 1 && lookup(ps, "hash"@) == Some(hash@)
            && e.form_spec() is None && e.multipart_spec() is None),
{
    broadcast use {lookup_append, lookup_opt_param};
    reveal_with_fuel(lookup, 4);
}

proof fn lemma_parameters_torrentspause(e: Endpoint)
    requires
        e is TorrentsPause,
    ensures
        e matches Endpoint::TorrentsPause { hashes } ==> (e.form_spec() matches Some(ps) && ps.len() == 1 && lookup(ps, "hashes"@) == Some(list_text(hashes, "|"@))
            && e.query_spec() is None && e.multipart_spec() is None),
{
    broadcast use {lookup_append, lookup_opt_param};
    reveal_with_fuel(lookup, 4);
}

proof fn lemma_parameters_torrentsadd(e: Endpoint)
    requires
        e is TorrentsAdd,
    ensures
        e matches Endpoint::TorrentsAdd { mp } ==> (e.query_spec() is None && e.form_spec() is None
            && (e.multipart_spec() is Some <==> (mp.urls@.len() > 0 || mp.torrents@.len() > 0))
            && (e.multipart_spec() matches Some(m) ==> m.files == files_view(mp.torrents@)
                && lookup(m.text, "urls"@) == (if mp.urls@.len() > 0 {
                    Some(joined(views(mp.urls@), "\n"@))
                } else {
                    None
                }))),
{
    broadcast use {lookup_append, lookup_opt_param};
    reveal_with_fuel(lookup, 4);
}

proof fn lemma_parameters_torrentsaddtrackers(e: Endpoint)
    requires
        e is TorrentsAddTrackers,
    ensures
        e matches Endpoint::TorrentsAddTrackers { hash, urls } ==> (e.form_spec() matches Some(ps) && ps.len() == 2 && lookup(ps, "hash"@) == Some(hash@) && lookup(ps, "urls"@) == Some(list_text(urls, "\n"@))
            && e.query_spec() is None && e.multipart_spec() is None),
{
    broadcast use {lookup_append, lookup_opt_param};
    reveal_with_fuel(lookup, 4);
    lemma_names_differ_torrentsaddtrackers();
}

proof fn lemma_parameters_torrentsedittracker(e: Endpoint)
    requires
        e is TorrentsEditTracker,
    ensures
        e matches Endpoint::TorrentsEditTracker { hash, orig_url, new_url } ==> (e.form_spec() matches Some(ps) && ps.len() == 3 && lookup(ps, "hash"@) == Some(hash@) && lookup(ps, "origUrl"@) == Some(orig_url@) && lookup(ps, "newUrl"@) == Some(new_url@)
            && e.query_spec() is None && e.multipart_spec() is None),
{
    broadcast use {lookup_append, lookup_opt_param};
    reveal_with_fuel(lookup, 4);
    lemma_names_differ_torrentsedittracker();
}

proof fn lemma_parameters_torrentsremovetrackers(e: Endpoint)
    requires
        e is TorrentsRemoveTrackers,
    ensures
        e matches Endpoint::TorrentsRemoveTrackers { hash, urls } ==> (e.form_spec() matches Some(ps) && ps.len() == 2 && lookup(ps, "hash"@) == Some(hash@) && lookup(ps, "urls"@) == Some(list_text(urls, "|"@))
            && e.query_spec() is None && e.multipart_spec() is None),
{
    broadcast use {lookup_append, lookup_opt_param};
    reveal_with_fuel(lookup, 4);
    lemma_names_differ_torrentsremovetrackers();
}

proof fn lemma_parameters_torrentsaddpeers(e: Endpoint)
    requires
        e is TorrentsAddPeers,
    ensures
        e matches Endpoint::TorrentsAddPeers { hashes, peers } ==> (e.form_spec() matches Some(ps) && ps.len() == 2 && lookup(ps, "hashes"@) == Some(list_text(hashes, "|"@)) && lookup(ps, "peers"@) == Some(list_text(peers, "|"@))
            && e.query_spec() is None && e.multipart_spec() is None),
{
    broadcast use {lookup_append, lookup_opt_param};
    reveal_with_fuel(lookup, 4);
    lemma_names_differ_torrentsaddpeers();
}

proof fn lemma_parameters_torrentsincreaseprio(e: Endpoint)
    requires
        e is TorrentsIncreasePrio,
    ensures
        e matches Endpoint::TorrentsIncreasePrio { hashes } ==> (e.form_spec() matches Some(ps) && ps.len() == 1 && lookup(ps, "hashes"@) == Some(list_text(hashes, "|"@))
            && e.query_spec() is None && e.multipart_spec() is None),
{
    broadcast use {lookup_append, lookup_opt_param};
    reveal_with_fuel(lookup, 4);
}

proof fn lemma_parameters_torrentsdecreaseprio(e: Endpoint)
    requires
        e is TorrentsDecreasePrio,
    ensures
        e matches Endpoint::TorrentsDecreasePrio { hashes } ==> (e.form_spec() matches Some(ps) && ps.len() == 1 && lookup(ps, "hashes"@) == Some(list_text(hashes, "|"@))
            && e.query_spec() is None && e.multipart_spec() is None),
{
    broadcast use {lookup_append, lookup_opt_param};
    reveal_with_fuel(lookup, 4);
}

proof fn lemma_parameters_torrentstopprio(e: Endpoint)
    requires
        e is TorrentsTopPrio,
    ensures
        e matches Endpoint::TorrentsTopPrio { hashes } ==> (e.form_spec() matches Some(ps) && ps.len() == 1 && lookup(ps, "hashes"@) == Some(list_text(hashes, "|"@))
            && e.query_spec() is None && e.multipart_spec() is None),
{
    broadcast use {lookup_append, lookup_opt_param};
    reveal_with_fuel(lookup, 4);
}

proof fn lemma_parameters_torrentsbottomprio(e: Endpoint)
    requires
        e is TorrentsBottomPrio,
    ensures
        e matches Endpoint::TorrentsBottomPrio { hashes } ==> (e.form_spec() matches Some(ps) && ps.len() == 1 && lookup(ps, "hashes"@) == Some(list_text(hashes, "|"@))
            && e.query_spec() is None && e.multipart_spec() is None),
{
    broadcast use {lookup_append, lookup_opt_param};
    reveal_with_fuel(lookup, 4);
}

proof fn lemma_parameters_torrentsdownloadlimit(e: Endpoint)
    requires
        e is TorrentsDownloadLimit,
    ensures
        e matches Endpoint::TorrentsDownloadLimit { hashes } ==> (e.form_spec() matches Some(ps) && ps.len() == 1 && lookup(ps, "hashes"@) == Some(list_text(hashes, "|"@))
            && e.query_spec() is None && e.multipart_spec() is None),
{
    broadcast use {lookup_append, lookup_opt_param};
    reveal_with_fuel(lookup, 4);
}

proof fn lemma_parameters_torrentssetdownloadlimit(e: Endpoint)
    requires
        e is TorrentsSetDownloadLimit,
    ensures
        e matches Endpoint::TorrentsSetDownloadLimit { hashes, limit } ==> (e.form_spec() matches Some(ps) && ps.len() == 2 && lookup(ps, "hashes"@) == Some(list_text(hashes, "|"@)) && lookup(ps, "limit"@) == Some(decimal(limit as nat))
            && e.query_spec() is None && e.multipart_spec() is None),
{
    broadcast use {lookup_append, lookup_opt_param};
    reveal_with_fuel(lookup, 4);
    lemma_names_differ_torrentssetdownloadlimit();
}

proof fn lemma_parameters_torrentssetsharelimits(e: Endpoint)
    requires
        e is TorrentsSetShareLimits,
    ensures
        e matches Endpoint::TorrentsSetShareLimits { hashes, ratio_limit, seeding_time_limit } ==> (e.form_spec() matches Some(ps) && ps.len() == 3 && lookup(ps, "hashes"@) == Some(list_text(hashes, "|"@)) && lookup(ps, "ratioLimit"@) == Some(ratio_limit@) && lookup(ps, "seedingTimeLimit"@) == Some(signed_decimal(seeding_time_limit as int))
            && e.query_spec() is None && e.multipart_spec() is None),
{
    broadcast use {lookup_append, lookup_opt_param};
    reveal_with_fuel(lookup, 4);
    lemma_names_differ_torrentssetsharelimits();
}

proof fn lemma_parameters_torrentsuploadlimit(e: Endpoint)
    requires
        e is TorrentsUploadLimit,
    ensures
        e matches Endpoint::TorrentsUploadLimit { hashes } ==> (e.form_spec() matches Some(ps) && ps.len() == 1 && lookup(ps, "hashes"@) == Some(list_text(hashes, "|"@))
            && e.query_spec() is None && e.multipart_spec() is None),
{
    broadcast use {lookup_append, lookup_opt_param};
    reveal_with_fuel(lookup, 4);
}

proof fn lemma_parameters_torrentssetuploadlimit(e: Endpoint)
    requires
        e is TorrentsSetUploadLimit,
    ensures
        e matches Endpoint::TorrentsSetUploadLimit { hashes, limit } ==> (e.form_spec() matches Some(ps) && ps.len() == 2 && lookup(ps, "hashes"@) == Some(list_text(hashes, "|"@)) && lookup(ps, "limit"@) == Some(decimal(limit as nat))
            && e.query_spec() is None && e.multipart_spec() is None),
{
    broadcast use {lookup_append, lookup_opt_param};
    reveal_with_fuel(lookup, 4);
    lemma_names_differ_torrentssetuploadlimit();
}

proof fn lemma_parameters_torrentssetlocation(e: Endpoint)
    requires
        e is TorrentsSetLocation,
    ensures
        e matches Endpoint::TorrentsSetLocation { hashes, location } ==> (e.form_spec() matches Some(ps) && ps.len() == 2 && lookup(ps, "hashes"@) == Some(list_text(hashes, "|"@)) && lookup(ps, "location"@) == Some(location@)
            && e.query_spec() is None && e.multipart_spec() is None),
{
    broadcast use {lookup_append, lookup_opt_param};
    reveal_with_fuel(lookup, 4);
    lemma_names_differ_torrentssetlocation();
}

proof fn lemma_parameters_torrentsrename(e: Endpoint)
    requires
        e is TorrentsRename,
    ensures
        e matches Endpoint::TorrentsRename { hash, name } ==> (e.form_spec() matches Some(ps) && ps.len() == 2 && lookup(ps, "hash"@) == Some(hash@) && lookup(ps, "name"@) == Some(name@)
            && e.query_spec() is None && e.multipart_spec() is None),
{
    broadcast use {lookup_append, lookup_opt_param};
    reveal_with_fuel(lookup, 4);
    lemma_names_differ_torrentsrename();
}

proof fn lemma_parameters_torrentssetcategory(e: Endpoint)
    requires
        e is TorrentsSetCategory,
    ensures
        e matches Endpoint::TorrentsSetCategory { hashes, category } ==> (e.form_spec() matches Some(ps) && ps.len() == 2 && lookup(ps, "hashes"@) == Some(list_text(hashes, "|"@)) && lookup(ps, "category"@) == Some(category@)
            && e.query_spec() is None && e.multipart_spec() is None),
{
    broadcast use {lookup_append, lookup_opt_param};
    reveal_with_fuel(lookup, 4);
    lemma_names_differ_torrentssetcategory();
}

proof fn lemma_parameters_torrentscategories(e: Endpoint)
    requires
        e is TorrentsCategories,
    ensures
        e is TorrentsCategories ==> e.query_spec() is None && e.form_spec() is None && e.multipart_spec() is None,
{
    broadcast use {lookup_append, lookup_opt_param};
    reveal_with_fuel(lookup, 4);
}

proof fn lemma_parameters_torrentscreatecategory(e: Endpoint)
    requires
        e is TorrentsCreateCategory,
    ensures
        e matches Endpoint::TorrentsCreateCategory { category, save_path } ==> (e.form_spec() matches Some(ps) && ps.len() == 2 && lookup(ps, "category"@) == Some(category@) && lookup(ps, "savePath"@) == Some(save_path@)
            && e.query_spec() is None && e.multipart_spec() is None),
{
    broadcast use {lookup_append, lookup_opt_param};
    reveal_with_fuel(lookup, 4);
    lemma_names_differ_torrentscreatecategory();
}

proof fn lemma_parameters_torrentseditcategory(e: Endpoint)
    requires
        e is TorrentsEditCategory,
    ensures
        e matches Endpoint::TorrentsEditCategory { category, save_path } ==> (e.form_spec() matches Some(ps) && ps.len() == 2 && lookup(ps, "category"@) == Some(category@) && lookup(ps, "savePath"@) == Some(save_path@)
            && e.query_spec() is None && e.multipart_spec() is None),
{
    broadcast use {lookup_append, lookup_opt_param};
    reveal_with_fuel(lookup, 4);
    lemma_names_differ_torrentseditcategory();
}

proof fn lemma_parameters_torrentsremovecategories(e: Endpoint)
    requires
        e is TorrentsRemoveCategories,
    ensures
        e matches Endpoint::TorrentsRemoveCategories { categories } ==> (e.form_spec() matches Some(ps) && ps.len() == 1 && lookup(ps, "categories"@) == Some(list_text(categories, "\n"@))
            && e.query_spec() is None && e.multipart_spec() is None),
{
    broadcast use {lookup_append, lookup_opt_param};
    reveal_with_fuel(lookup, 4);
}

proof fn lemma_parameters_torrentsaddtags(e: Endpoint)
    requires
        e is TorrentsAddTags,
    ensures
        e matches Endpoint::TorrentsAddTags { hashes, tags } ==> (e.form_spec() matches Some(ps) && ps.len() == 2 && lookup(ps, "hashes"@) == Some(list_text(hashes, "|"@)) && lookup(ps, "tags"@) == Some(list_text(tags, ","@))
            && e.query_spec() is None && e.multipart_spec() is None),
{
    broadcast use {lookup_append, lookup_opt_param};
    reveal_with_fuel(lookup, 4);
    lemma_names_differ_torrentsaddtags();
}

proof fn lemma_parameters_torrentsremovetags(e: Endpoint)
    requires
        e is TorrentsRemoveTags,
    ensures
        e matches Endpoint::TorrentsRemoveTags { hashes, tags } ==> (e.form_spec() matches Some(ps) && ps.len() == 2 && lookup(ps, "hashes"@) == Some(list_text(hashes, "|"@)) && lookup(ps, "tags"@) == Some(list_text(tags, ","@))
            && e.query_spec() is None && e.multipart_spec() is None),
{
    broadcast use {lookup_append, lookup_opt_param};
    reveal_with_fuel(lookup, 4);
    lemma_names_differ_torrentsremovetags();
}

proof fn lemma_parameters_torrentstags(e: Endpoint)
    requires
        e is TorrentsTags,
    ensures
        e is TorrentsTags ==> e.query_spec() is None && e.form_spec() is None && e.multipart_spec() is None,
{
    broadcast use {lookup_append, lookup_opt_param};
    reveal_with_fuel(lookup, 4);
}

proof fn lemma_parameters_torrentscreatetags(e: Endpoint)
    requires
        e is TorrentsCreateTags,
    ensures
        e matches Endpoint::TorrentsCreateTags { tags } ==> (e.form_spec() matches Some(ps) && ps.len() == 1 && lookup(ps, "tags"@) == Some(list_text(tags, ","@))
            && e.query_spec() is None && e.multipart_spec() is None),
{
    broadcast use {lookup_append, lookup_opt_param};
    reveal_with_fuel(lookup, 4);
}

proof fn lemma_parameters_torrentsdeletetags(e: Endpoint)
    requires
        e is TorrentsDeleteTags,
    ensures
        e matches Endpoint::TorrentsDeleteTags { tags } ==> (e.form_spec() matches Some(ps) && ps.len() == 1 && lookup(ps, "tags"@) == Some(list_text(tags, ","@))
            && e.query_spec() is None && e.multipart_spec() is None),
{
    broadcast use {lookup_append, lookup_opt_param};
    reveal_with_fuel(lookup, 4);
}

proof fn lemma_parameters_torrentssetautomanagement(e: Endpoint)
    requires
        e is TorrentsSetAutoManagement,
    ensures
        e matches Endpoint::TorrentsSetAutoManagement { hashes, enable } ==> (e.form_spec() matches Some(ps) && ps.len() == 2 && lookup(ps, "hashes"@) == Some(list_text(hashes, "|"@)) && lookup(ps, "enable"@) == Some(bool_text(enable))
            && e.query_spec() is None && e.multipart_spec() is None),
{
    broadcast use {lookup_append, lookup_opt_param};
    reveal_with_fuel(lookup, 4);
    lemma_names_differ_torrentssetautomanagement();
}

proof fn lemma_parameters_torrentstogglesequentialdownload(e: Endpoint)
    requires
        e is TorrentsToggleSequentialDownload,
    ensures
        e matches Endpoint::TorrentsToggleSequentialDownload { hashes } ==> (e.form_spec() matches Some(ps) && ps.len() == 1 && lookup(ps, "hashes"@) == Some(list_text(hashes, "|"@))
            && e.query_spec() is None && e.multipart_spec() is None),
{
    broadcast use {lookup_append, lookup_opt_param};
    reveal_with_fuel(lookup, 4);
}

proof fn lemma_parameters_torrentstogglefirstlastpieceprio(e: Endpoint)
    requires
        e is TorrentsToggleFirstLastPiecePrio,
    ensures
        e matches Endpoint::TorrentsToggleFirstLastPiecePrio { hashes } ==> (e.form_spec() matches Some(ps) && ps.len() == 1 && lookup(ps, "hashes"@) == Some(list_text(hashes, "|"@))
            && e.query_spec() is None && e.multipart_spec() is None),
{
    broadcast use {lookup_append, lookup_opt_param};
    reveal_with_fuel(lookup, 4);
}

proof fn lemma_parameters_torrentssetforcestart(e: Endpoint)
    requires
        e is TorrentsSetForceStart,
    ensures
        e matches Endpoint::TorrentsSetForceStart { hashes, value } ==> (e.form_spec() matches Some(ps) && ps.len() == 2 && lookup(ps, "hashes"@) == Some(list_text(hashes, "|"@)) && lookup(ps, "value"@) == Some(bool_text(value))
            && e.query_spec() is None && e.multipart_spec() is None),
{
    broadcast use {lookup_append, lookup_opt_param};
    reveal_with_fuel(lookup, 4);
    lemma_names_differ_torrentssetforcestart();
}

proof fn lemma_parameters_torrentssetsuperseeding(e: Endpoint)
    requires
        e is TorrentsSetSuperSeeding,
    ensures
        e matches Endpoint::TorrentsSetSuperSeeding { hashes, value } ==> (e.form_spec() matches Some(ps) && ps.len() == 2 && lookup(ps, "hashes"@) == Some(list_text(hashes, "|"@)) && lookup(ps, "value"@) == Some(bool_text(value))
            && e.query_spec() is None && e.multipart_spec() is None),
{
    broadcast use {lookup_append, lookup_opt_param};
    reveal_with_fuel(lookup, 4);
    lemma_names_differ_torrentssetsuperseeding();
}

proof fn lemma_parameters_torrentsrenamefile(e: Endpoint)
    requires
        e is TorrentsRenameFile,
    ensures
        e matches Endpoint::TorrentsRenameFile { hash, old_path, new_path } ==> (e.form_spec() matches Some(ps) && ps.len() == 3 && lookup(ps, "hash"@) == Some(hash@) && lookup(ps, "oldPath"@) == Some(old_path@) && lookup(ps, "newPath"@) == Some(new_path@)
            && e.query_spec() is None && e.multipart_spec() is None),
{
    broadcast use {lookup_append, lookup_opt_param};
    reveal_with_fuel(lookup, 4);
    lemma_names_differ_torrentsrenamefile();
}

proof fn lemma_parameters_torrentsrenamefolder(e: Endpoint)
    requires
        e is TorrentsRenameFolder,
    ensures
        e matches Endpoint::TorrentsRenameFolder { hash, old_path, new_path } ==> (e.form_spec() matches Some(ps) && ps.len() == 3 && lookup(ps, "hash"@) == Some(hash@) && lookup(ps, "oldPath"@) == Some(old_path@) && lookup(ps, "newPath"@) == Some(new_path@)
            && e.query_spec() is None && e.multipart_spec() is None),
{
    broadcast use {lookup_append, lookup_opt_param};
    reveal_with_fuel(lookup, 4);
    lemma_names_differ_torrentsrenamefolder();
}

proof fn lemma_parameters_searchstart(e: Endpoint)
    requires
        e is SearchStart,
    ensures
        e matches Endpoint::SearchStart { pattern, plugins, category } ==> (e.form_spec() matches Some(ps) && ps.len() == 3 && lookup(ps, "pattern"@) == Some(pattern@) && lookup(ps, "plugins"@) == Some(plugins@) && lookup(ps, "category"@) == Some(category@)
            && e.query_spec() is None && e.multipart_spec() is None),
{
    broadcast use {lookup_append, lookup_opt_param};
    reveal_with_fuel(lookup, 4);
    lemma_names_differ_searchstart();
}

proof fn lemma_parameters_searchstop(e: Endpoint)
    requires
        e is SearchStop,
    ensures
        e matches Endpoint::SearchStop { id } ==> (e.form_spec() matches Some(ps) && ps.len() == 1 && lookup(ps, "id"@) == Some(decimal(id as nat))
            && e.query_spec() is None && e.multipart_spec() is None),
{
    broadcast use {lookup_append, lookup_opt_param};
    reveal_with_fuel(lookup, 4);
}

proof fn lemma_parameters_searchstatus(e: Endpoint)
    requires
        e is SearchStatus,
    ensures
        e matches Endpoint::SearchStatus { id } ==> (e.query_spec() matches Some(ps) && lookup(ps, "id"@) == opt_u64_text(id)
            && e.form_spec() is None && e.multipart_spec() is None),
{
    broadcast use {lookup_append, lookup_opt_param};
    reveal_with_fuel(lookup, 4);
}

proof fn lemma_parameters_searchresults(e: Endpoint)
    requires
        e is SearchResults,
    ensures
        e matches Endpoint::SearchResults { id, limit, offset } ==> (e.query_spec() matches Some(ps) && lookup(ps, "id"@) == Some(decimal(id as nat)) && lookup(ps, "limit"@) == opt_i64_text(limit) && lookup(ps, "offset"@) == opt_i64_text(offset)
            && e.form_spec() is None && e.multipart_spec() is None),
{
    broadcast use {lookup_append, lookup_opt_param};
    reveal_with_fuel(lookup, 4);
    lemma_names_differ_searchresults();
}

proof fn lemma_names_differ_authlogin()
    ensures
        "username"@ != "password"@,
{
    reveal_strlit("password");
    reveal_strlit("username");
    assert("password"@[0] != "username"@[0]);
}

proof fn lemma_names_differ_logmain()
    ensures
        "normal"@ != "info"@,
        "normal"@ != "warning"@,
        "normal"@ != "critical"@,
        "normal"@ != "last_known_id"@,
        "info"@ != "warning"@,
        "info"@ != "critical"@,
        "info"@ != "last_known_id"@,
        "warning"@ != "critical"@,
        "warning"@ != "last_known_id"@,
        "critical"@ != "last_known_id"@,
{
    reveal_strlit("critical");
    reveal_strlit("info");
    reveal_strlit("last_known_id");
    reveal_strlit("normal");
    reveal_strlit("warning");
    assert("critical"@.len() != "info"@.len());
    assert("critical"@.len() != "last_known_id"@.len());
    assert("critical"@.len() != "normal"@.len());
    assert("critical"@.len() != "warning"@.len());
    assert("info"@.len() != "last_known_id"@.len());
    assert("info"@.len() != "normal"@.len());
    assert("info"@.len() != "warning"@.len());
    assert("last_known_id"@.len() != "normal"@.len());
    assert("last_known_id"@.len() != "warning"@.len());
    assert("normal"@.len() != "warning"@.len());
}

proof fn lemma_names_differ_torrentpeers()
    ensures
        "hash"@ != "rid"@,
{
    reveal_strlit("hash");
    reveal_strlit("rid");
    assert("hash"@.len() != "rid"@.len());
}

proof fn lemma_names_differ_torrentsinfo()
    ensures
        "filter"@ != "category"@,
        "filter"@ != "tag"@,
        "filter"@ != "sort"@,
        "filter"@ != "reverse"@,
        "filter"@ != "limit"@,
        "filter"@ != "offset"@,
        "filter"@ != "hashes"@,
        "category"@ != "tag"@,
        "category"@ != "sort"@,
        "category"@ != "reverse"@,
        "category"@ != "limit"@,
        "category"@ != "offset"@,
        "category"@ != "hashes"@,
        "tag"@ != "sort"@,
        "tag"@ != "reverse"@,
        "tag"@ != "limit"@,
        "tag"@ != "offset"@,
        "tag"@ != "hashes"@,
        "sort"@ != "reverse"@,
        "sort"@ != "limit"@,
        "sort"@ != "offset"@,
        "sort"@ != "hashes"@,
        "reverse"@ != "limit"@,
        "reverse"@ != "offset"@,
        "reverse"@ != "hashes"@,
        "limit"@ != "offset"@,
        "limit"@ != "hashes"@,
        "offset"@ != "hashes"@,
{
    reveal_strlit("category");
    reveal_strlit("filter");
    reveal_strlit("hashes");
    reveal_strlit("limit");
    reveal_strlit("offset");
    reveal_strlit("reverse");
    reveal_strlit("sort");
    reveal_strlit("tag");
    assert("category"@.len() != "filter"@.len());
    assert("category"@.len() != "hashes"@.len());
    assert("category"@.len() != "limit"@.len());
    assert("category"@.len() != "offset"@.len());
    assert("category"@.len() != "reverse"@.len());
    assert("category"@.len() != "sort"@.len());
    assert("category"@.len() != "tag"@.len());
    assert("filter"@[0] != "hashes"@[0]);
    assert("filter"@.len() != "limit"@.len());
    assert("filter"@[0] != "offset"@[0]);
    assert("filter"@.len() != "reverse"@.len());
    assert("filter"@.len() != "sort"@.len());
    assert("filter"@.len() != "tag"@.len());
    assert("hashes"@.len() != "limit"@.len());
    assert("hashes"@[0] != "offset"@[0]);
    assert("hashes"@.len() != "reverse"@.len());
    assert("hashes"@.len() != "sort"@.len());
    assert("hashes"@.len() != "tag"@.len());
    assert("limit"@.len() != "offset"@.len());
    assert("limit"@.len() != "reverse"@.len());
    assert("limit"@.len() != "sort"@.len());
    assert("limit"@.len() != "tag"@.len());
    assert("offset"@.len() != "reverse"@.len());
    assert("offset"@.len() != "sort"@.len());
    assert("offset"@.len() != "tag"@.len());
    assert("reverse"@.len() != "sort"@.len());
    assert("reverse"@.len() != "tag"@.len());
    assert("sort"@.len() != "tag"@.len());
}

proof fn lemma_names_differ_torrentsaddtrackers()
    ensures
        "hash"@ != "urls"@,
{
    reveal_strlit("hash");
    reveal_strlit("urls");
    assert("hash"@[0] != "urls"@[0]);
}

proof fn lemma_names_differ_torrentsedittracker()
    ensures
        "hash"@ != "origUrl"@,
        "hash"@ != "newUrl"@,
        "origUrl"@ != "newUrl"@,
{
    reveal_strlit("hash");
    reveal_strlit("newUrl");
    reveal_strlit("origUrl");
    assert("hash"@.len() != "newUrl"@.len());
    assert("hash"@.len() != "origUrl"@.len());
    assert("newUrl"@.len() != "origUrl"@.len());
}

proof fn lemma_names_differ_torrentsremovetrackers()
    ensures
        "hash"@ != "urls"@,
{
    reveal_strlit("hash");
    reveal_strlit("urls");
    assert("hash"@[0] != "urls"@[0]);
}

proof fn lemma_names_differ_torrentsaddpeers()
    ensures
        "hashes"@ != "peers"@,
{
    reveal_strlit("hashes");
    reveal_strlit("peers");
    assert("hashes"@.len() != "peers"@.len());
}

proof fn lemma_names_differ_torrentssetdownloadlimit()
    ensures
        "hashes"@ != "limit"@,
{
    reveal_strlit("hashes");
    reveal_strlit("limit");
    assert("hashes"@.len() != "limit"@.len());
}

proof fn lemma_names_differ_torrentssetsharelimits()
    ensures
        "hashes"@ != "ratioLimit"@,
        "hashes"@ != "seedingTimeLimit"@,
        "ratioLimit"@ != "seedingTimeLimit"@,
{
    reveal_strlit("hashes");
    reveal_strlit("ratioLimit");
    reveal_strlit("seedingTimeLimit");
    assert("hashes"@.len() != "ratioLimit"@.len());
    assert("hashes"@.len() != "seedingTimeLimit"@.len());
    assert("ratioLimit"@.len() != "seedingTimeLimit"@.len());
}

proof fn lemma_names_differ_torrentssetuploadlimit()
    ensures
        "hashes"@ != "limit"@,
{
    reveal_strlit("hashes");
    reveal_strlit("limit");
    assert("hashes"@.len() != "limit"@.len());
}

proof fn lemma_names_differ_torrentssetlocation()
    ensures
        "hashes"@ != "location"@,
{
    reveal_strlit("hashes");
    reveal_strlit("location");
    assert("hashes"@.len() != "location"@.len());
}

proof fn lemma_names_differ_torrentsrename()
    ensures
        "hash"@ != "name"@,
{
    reveal_strlit("hash");
    reveal_strlit("name");
    assert("hash"@[0] != "name"@[0]);
}

proof fn lemma_names_differ_torrentssetcategory()
    ensures
        "hashes"@ != "category"@,
{
    reveal_strlit("category");
    reveal_strlit("hashes");
    assert("category"@.len() != "hashes"@.len());
}

proof fn lemma_names_differ_torrentscreatecategory()
    ensures
        "category"@ != "savePath"@,
{
    reveal_strlit("category");
    reveal_strlit("savePath");
    assert("category"@[0] != "savePath"@[0]);
}

proof fn lemma_names_differ_torrentseditcategory()
    ensures
        "category"@ != "savePath"@,
{
    reveal_strlit("category");
    reveal_strlit("savePath");
    assert("category"@[0] != "savePath"@[0]);
}

proof fn lemma_names_differ_torrentsaddtags()
    ensures
        "hashes"@ != "tags"@,
{
    reveal_strlit("hashes");
    reveal_strlit("tags");
    assert("hashes"@.len() != "tags"@.len());
}

proof fn lemma_names_differ_torrentsremovetags()
    ensures
        "hashes"@ != "tags"@,
{
    reveal_strlit("hashes");
    reveal_strlit("tags");
    assert("hashes"@.len() != "tags"@.len());
}

proof fn lemma_names_differ_torrentssetautomanagement()
    ensures
        "hashes"@ != "enable"@,
{
    reveal_strlit("enable");
    reveal_strlit("hashes");
    assert("enable"@[0] != "hashes"@[0]);
}

proof fn lemma_names_differ_torrentssetforcestart()
    ensures
        "hashes"@ != "value"@,
{
    reveal_strlit("hashes");
    reveal_strlit("value");
    assert("hashes"@.len() != "value"@.len());
}

proof fn lemma_names_differ_torrentssetsuperseeding()
    ensures
        "hashes"@ != "value"@,
{
    reveal_strlit("hashes");
    reveal_strlit("value");
    assert("hashes"@.len() != "value"@.len());
}

proof fn lemma_names_differ_torrentsrenamefile()
    ensures
        "hash"@ != "oldPath"@,
        "hash"@ != "newPath"@,
        "oldPath"@ != "newPath"@,
{
    reveal_strlit("hash");
    reveal_strlit("newPath");
    reveal_strlit("oldPath");
    assert("hash"@.len() != "newPath"@.len());
    assert("hash"@.len() != "oldPath"@.len());
    assert("newPath"@[0] != "oldPath"@[0]);
}

proof fn lemma_names_differ_torrentsrenamefolder()
    ensures
        "hash"@ != "oldPath"@,
        "hash"@ != "newPath"@,
        "oldPath"@ != "newPath"@,
{
    reveal_strlit("hash");
    reveal_strlit("newPath");
    reveal_strlit("oldPath");
    assert("hash"@.len() != "newPath"@.len());
    assert("hash"@.len() != "oldPath"@.len());
    assert("newPath"@[0] != "oldPath"@[0]);
}

proof fn lemma_names_differ_searchstart()
    ensures
        "pattern"@ != "plugins"@,
        "pattern"@ != "category"@,
        "plugins"@ != "category"@,
{
    reveal_strlit("category");
    reveal_strlit("pattern");
    reveal_strlit("plugins");
    assert("category"@.len() != "pattern"@.len());
    assert("category"@.len() != "plugins"@.len());
    assert("pattern"@[1] != "plugins"@[1]);
}

proof fn lemma_names_differ_searchresults()
    ensures
        "id"@ != "limit"@,
        "id"@ != "offset"@,
        "limit"@ != "offset"@,
{
    reveal_strlit("id");
    reveal_strlit("limit");
    reveal_strlit("offset");
    assert("id"@.len() != "limit"@.len());
    assert("id"@.len() != "offset"@.len());
    assert("limit"@.len() != "offset"@.len());
}

} // verus!
