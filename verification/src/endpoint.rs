//! The endpoints of the qBittorrent Web API (version 2) that the client calls,
//! and how each one is written as a request.
use vstd::prelude::*;
use crate::encode::{bool_str, bool_text, decimal, i64_text, join_strings, signed_decimal, u64_text};
use crate::params::{
    list_text, no_params, opt_bool_str, opt_bool_text, opt_i64_str, opt_i64_text, opt_list_str,
    opt_list_text, opt_param, opt_text, opt_u64_str, opt_u64_text, params1, params2, params3,
    push_opt,
};
use crate::request::{
    files_view, opt_multipart_view, opt_pairs_view, pairs_view, push_param, HttpMethod,
    MultipartBody, MultipartView, TextPair,
};

verus! {

/// Which messages of the main log to read.
pub struct LogMainQuery {
    pub normal: Option<bool>,
    pub info: Option<bool>,
    pub warning: Option<bool>,
    pub critical: Option<bool>,
    /// Only messages newer than this id.
    pub last_known_id: Option<i64>,
}

/// Which messages of the peer log to read.
pub struct LogPeersQuery {
    /// Only messages newer than this id.
    pub last_known_id: Option<i64>,
}

/// The response id that the main data changes are relative to.
pub struct SyncMaindataQuery {
    pub rid: Option<i64>,
}

/// The torrent, and the response id that the peer changes are relative to.
pub struct SyncTorrentPeersQuery {
    pub hash: String,
    pub rid: Option<i64>,
}

/// The filters of the torrent list.
pub struct TorrentsInfoQuery {
    pub filter: Option<String>,
    pub category: Option<String>,
    pub tag: Option<String>,
    pub sort: Option<String>,
    pub reverse: Option<bool>,
    pub limit: Option<i64>,
    pub offset: Option<i64>,
    pub hashes: Option<Vec<String>>,
}

/// The preferences to change, as a JSON object.
pub struct AppSetPreferencesForm {
    pub json: String,
}

/// Torrents to add: URLs (magnet links or links to torrent files), and torrent
/// files given by name and content.
pub struct TorrentsAddMultipart {
    pub urls: Vec<String>,
    pub torrents: Vec<(String, Vec<u8>)>,
}

impl TorrentsAddMultipart {
    /// The server needs at least one URL or one torrent file.
    pub open spec fn has_content_spec(&self) -> bool {
        self.urls@.len() > 0 || self.torrents@.len() > 0
    }

    /// Whether the upload names at least one URL or one torrent file.
    pub fn has_content(&self) -> (r: bool)
        ensures
            r == self.has_content_spec(),
    {
        self.urls.len() > 0 || self.torrents.len() > 0
    }

    /// The multipart body: the URLs, one per line, in a field `urls` (left out
    /// when there is none), and each torrent file as a part of its own.
    pub open spec fn body_spec(&self) -> MultipartView {
        MultipartView {
            text: if self.urls@.len() > 0 {
                seq![("urls"@, list_text(self.urls, "\n"@))]
            } else {
                Seq::empty()
            },
            files: files_view(self.torrents@),
        }
    }

    /// Writes the multipart body.
    pub fn into_body(self) -> (r: MultipartBody)
        ensures
            r@ == self.body_spec(),
    {
        let text = if self.urls.len() > 0 {
            params1("urls", join_strings(&self.urls, "\n"))
        } else {
            no_params()
        };
        MultipartBody { text, files: self.torrents }
    }
}

/// One call of the Web API, with its parameters.
#[allow(inconsistent_fields)]
pub enum Endpoint {
    /// Logs in with a user name and password.
    AuthLogin { username: String, password: String },
    /// Logs out.
    AuthLogout,
    /// The application version.
    AppVersion,
    /// The Web API version.
    AppWebApiVersion,
    /// Build information.
    AppBuildInfo,
    /// The application preferences.
    AppPreferences,
    /// Changes preferences, given as a JSON object.
    AppSetPreferences { json: String },
    /// The default save path.
    AppDefaultSavePath,
    /// The main log.
    LogMain { q: LogMainQuery },
    /// The peer log.
    LogPeers { q: LogPeersQuery },
    /// Changes of the main data since a response id.
    Maindata { q: SyncMaindataQuery },
    /// Changes of the peers of a torrent since a response id.
    TorrentPeers { q: SyncTorrentPeersQuery },
    /// Global transfer information.
    TransferInfo,
    /// Whether the alternative speed limits are on.
    SpeedLimitsMode,
    /// Switches the alternative speed limits.
    ToggleSpeedLimitsMode,
    /// The global download limit.
    DownloadLimit,
    /// Sets the global download limit.
    SetDownloadLimit { limit: u64 },
    /// The global upload limit.
    UploadLimit,
    /// Sets the global upload limit.
    SetUploadLimit { limit: u64 },
    /// Bans peers, each given as `host:port`.
    BanPeers { peers: Vec<String> },
    /// The list of torrents, filtered.
    TorrentsInfo { q: TorrentsInfoQuery },
    /// The properties of a torrent.
    TorrentsProperties { hash: String },
    /// The trackers of a torrent.
    TorrentsTrackers { hash: String },
    /// The web seeds of a torrent.
    TorrentsWebseeds { hash: String },
    /// The files of a torrent.
    TorrentsFiles { hash: String },
    /// The states of the pieces of a torrent.
    TorrentsPieceStates { hash: String },
    /// The hashes of the pieces of a torrent.
    TorrentsPieceHashes { hash: String },
    /// Pauses torrents.
    TorrentsPause { hashes: Vec<String> },
    /// Adds torrents from URLs or torrent files.
    TorrentsAdd { mp: TorrentsAddMultipart },
    /// Adds trackers to a torrent.
    TorrentsAddTrackers { hash: String, urls: Vec<String> },
    /// Replaces a tracker URL of a torrent.
    TorrentsEditTracker { hash: String, orig_url: String, new_url: String },
    /// Removes trackers from a torrent.
    TorrentsRemoveTrackers { hash: String, urls: Vec<String> },
    /// Adds peers to torrents.
    TorrentsAddPeers { hashes: Vec<String>, peers: Vec<String> },
    /// Moves torrents up the queue.
    TorrentsIncreasePrio { hashes: Vec<String> },
    /// Moves torrents down the queue.
    TorrentsDecreasePrio { hashes: Vec<String> },
    /// Moves torrents to the top of the queue.
    TorrentsTopPrio { hashes: Vec<String> },
    /// Moves torrents to the bottom of the queue.
    TorrentsBottomPrio { hashes: Vec<String> },
    /// The download limits of torrents.
    TorrentsDownloadLimit { hashes: Vec<String> },
    /// Sets the download limit of torrents.
    TorrentsSetDownloadLimit { hashes: Vec<String>, limit: u64 },
    /// Sets the share limits of torrents; the ratio limit is given as its decimal text.
    TorrentsSetShareLimits { hashes: Vec<String>, ratio_limit: String, seeding_time_limit: i64 },
    /// The upload limits of torrents.
    TorrentsUploadLimit { hashes: Vec<String> },
    /// Sets the upload limit of torrents.
    TorrentsSetUploadLimit { hashes: Vec<String>, limit: u64 },
    /// Moves torrents to another save location.
    TorrentsSetLocation { hashes: Vec<String>, location: String },
    /// Renames a torrent.
    TorrentsRename { hash: String, name: String },
    /// Sets the category of torrents.
    TorrentsSetCategory { hashes: Vec<String>, category: String },
    /// All categories.
    TorrentsCategories,
    /// Creates a category.
    TorrentsCreateCategory { category: String, save_path: String },
    /// Changes the save path of a category.
    TorrentsEditCategory { category: String, save_path: String },
    /// Removes categories.
    TorrentsRemoveCategories { categories: Vec<String> },
    /// Adds tags to torrents.
    TorrentsAddTags { hashes: Vec<String>, tags: Vec<String> },
    /// Removes tags from torrents.
    TorrentsRemoveTags { hashes: Vec<String>, tags: Vec<String> },
    /// All tags.
    TorrentsTags,
    /// Creates tags.
    TorrentsCreateTags { tags: Vec<String> },
    /// Deletes tags.
    TorrentsDeleteTags { tags: Vec<String> },
    /// Turns automatic torrent management on or off.
    TorrentsSetAutoManagement { hashes: Vec<String>, enable: bool },
    /// Switches sequential download of torrents.
    TorrentsToggleSequentialDownload { hashes: Vec<String> },
    /// Switches first and last piece priority of torrents.
    TorrentsToggleFirstLastPiecePrio { hashes: Vec<String> },
    /// Turns force start on or off.
    TorrentsSetForceStart { hashes: Vec<String>, value: bool },
    /// Turns super seeding on or off.
    TorrentsSetSuperSeeding { hashes: Vec<String>, value: bool },
    /// Renames a file of a torrent.
    TorrentsRenameFile { hash: String, old_path: String, new_path: String },
    /// Renames a folder of a torrent.
    TorrentsRenameFolder { hash: String, old_path: String, new_path: String },
    /// Starts a search.
    SearchStart { pattern: String, plugins: String, category: String },
    /// Stops a search.
    SearchStop { id: u64 },
    /// The status of one search, or of all.
    SearchStatus { id: Option<u64> },
    /// The results of a search.
    SearchResults { id: u64, limit: Option<i64>, offset: Option<i64> },
}

/// The parameters of a request, apart from where it is sent.
pub struct EndpointParts {
    pub query: Option<Vec<(String, String)>>,
    pub form: Option<Vec<(String, String)>>,
    pub multipart: Option<MultipartBody>,
}

impl Endpoint {
    /// The path of the endpoint, relative to the host URL.
    pub open spec fn path_spec(self) -> Seq<char> {
        match self {
            Endpoint::AuthLogin { .. } => "api/v2/auth/login"@,
            Endpoint::AuthLogout => "api/v2/auth/logout"@,
            Endpoint::AppVersion => "api/v2/app/version"@,
            Endpoint::AppWebApiVersion => "api/v2/app/webapiVersion"@,
            Endpoint::AppBuildInfo => "api/v2/app/buildInfo"@,
            Endpoint::AppPreferences => "api/v2/app/preferences"@,
            Endpoint::AppSetPreferences { .. } => "api/v2/app/setPreferences"@,
            Endpoint::AppDefaultSavePath => "api/v2/app/defaultSavePath"@,
            Endpoint::LogMain { .. } => "api/v2/log/main"@,
            Endpoint::LogPeers { .. } => "api/v2/log/peers"@,
            Endpoint::Maindata { .. } => "api/v2/sync/maindata"@,
            Endpoint::TorrentPeers { .. } => "api/v2/sync/torrentPeers"@,
            Endpoint::TransferInfo => "api/v2/transfer/info"@,
            Endpoint::SpeedLimitsMode => "api/v2/transfer/speedLimitsMode"@,
            Endpoint::ToggleSpeedLimitsMode => "api/v2/transfer/toggleSpeedLimitsMode"@,
            Endpoint::DownloadLimit => "api/v2/transfer/downloadLimit"@,
            Endpoint::SetDownloadLimit { .. } => "api/v2/transfer/setDownloadLimit"@,
            Endpoint::UploadLimit => "api/v2/transfer/uploadLimit"@,
            Endpoint::SetUploadLimit { .. } => "api/v2/transfer/setUploadLimit"@,
            Endpoint::BanPeers { .. } => "api/v2/transfer/banPeers"@,
            Endpoint::TorrentsInfo { .. } => "api/v2/torrents/info"@,
            Endpoint::TorrentsProperties { .. } => "api/v2/torrents/properties"@,
            Endpoint::TorrentsTrackers { .. } => "api/v2/torrents/trackers"@,
            Endpoint::TorrentsWebseeds { .. } => "api/v2/torrents/webseeds"@,
            Endpoint::TorrentsFiles { .. } => "api/v2/torrents/files"@,
            Endpoint::TorrentsPieceStates { .. } => "api/v2/torrents/pieceStates"@,
            Endpoint::TorrentsPieceHashes { .. } => "api/v2/torrents/pieceHashes"@,
            Endpoint::TorrentsPause { .. } => "api/v2/torrents/pause"@,
            Endpoint::TorrentsAdd { .. } => "api/v2/torrents/add"@,
            Endpoint::TorrentsAddTrackers { .. } => "api/v2/torrents/addTrackers"@,
            Endpoint::TorrentsEditTracker { .. } => "api/v2/torrents/editTracker"@,
            Endpoint::TorrentsRemoveTrackers { .. } => "api/v2/torrents/removeTrackers"@,
            Endpoint::TorrentsAddPeers { .. } => "api/v2/torrents/addPeers"@,
            Endpoint::TorrentsIncreasePrio { .. } => "api/v2/torrents/increasePrio"@,
            Endpoint::TorrentsDecreasePrio { .. } => "api/v2/torrents/decreasePrio"@,
            Endpoint::TorrentsTopPrio { .. } => "api/v2/torrents/topPrio"@,
            Endpoint::TorrentsBottomPrio { .. } => "api/v2/torrents/bottomPrio"@,
            Endpoint::TorrentsDownloadLimit { .. } => "api/v2/torrents/downloadLimit"@,
            Endpoint::TorrentsSetDownloadLimit { .. } => "api/v2/torrents/setDownloadLimit"@,
            Endpoint::TorrentsSetShareLimits { .. } => "api/v2/torrents/setShareLimits"@,
            Endpoint::TorrentsUploadLimit { .. } => "api/v2/torrents/uploadLimit"@,
            Endpoint::TorrentsSetUploadLimit { .. } => "api/v2/torrents/setUploadLimit"@,
            Endpoint::TorrentsSetLocation { .. } => "api/v2/torrents/setLocation"@,
            Endpoint::TorrentsRename { .. } => "api/v2/torrents/rename"@,
            Endpoint::TorrentsSetCategory { .. } => "api/v2/torrents/setCategory"@,
            Endpoint::TorrentsCategories => "api/v2/torrents/categories"@,
            Endpoint::TorrentsCreateCategory { .. } => "api/v2/torrents/createCategory"@,
            Endpoint::TorrentsEditCategory { .. } => "api/v2/torrents/editCategory"@,
            Endpoint::TorrentsRemoveCategories { .. } => "api/v2/torrents/removeCategories"@,
            Endpoint::TorrentsAddTags { .. } => "api/v2/torrents/addTags"@,
            Endpoint::TorrentsRemoveTags { .. } => "api/v2/torrents/removeTags"@,
            Endpoint::TorrentsTags => "api/v2/torrents/tags"@,
            Endpoint::TorrentsCreateTags { .. } => "api/v2/torrents/createTags"@,
            Endpoint::TorrentsDeleteTags { .. } => "api/v2/torrents/deleteTags"@,
            Endpoint::TorrentsSetAutoManagement { .. } => "api/v2/torrents/setAutoManagement"@,
            Endpoint::TorrentsToggleSequentialDownload { .. } => "api/v2/torrents/toggleSequentialDownload"@,
            Endpoint::TorrentsToggleFirstLastPiecePrio { .. } => "api/v2/torrents/toggleFirstLastPiecePrio"@,
            Endpoint::TorrentsSetForceStart { .. } => "api/v2/torrents/setForceStart"@,
            Endpoint::TorrentsSetSuperSeeding { .. } => "api/v2/torrents/setSuperSeeding"@,
            Endpoint::TorrentsRenameFile { .. } => "api/v2/torrents/renameFile"@,
            Endpoint::TorrentsRenameFolder { .. } => "api/v2/torrents/renameFolder"@,
            Endpoint::SearchStart { .. } => "api/v2/search/start"@,
            Endpoint::SearchStop { .. } => "api/v2/search/stop"@,
            Endpoint::SearchStatus { .. } => "api/v2/search/status"@,
            Endpoint::SearchResults { .. } => "api/v2/search/results"@,
        }
    }

    /// The HTTP method of the endpoint.
    pub open spec fn method_spec(self) -> HttpMethod {
        match self {
            Endpoint::AppVersion => HttpMethod::Get,
            Endpoint::AppWebApiVersion => HttpMethod::Get,
            Endpoint::AppBuildInfo => HttpMethod::Get,
            Endpoint::AppPreferences => HttpMethod::Get,
            Endpoint::AppDefaultSavePath => HttpMethod::Get,
            Endpoint::LogMain { .. } => HttpMethod::Get,
            Endpoint::LogPeers { .. } => HttpMethod::Get,
            Endpoint::Maindata { .. } => HttpMethod::Get,
            Endpoint::TorrentPeers { .. } => HttpMethod::Get,
            Endpoint::TransferInfo => HttpMethod::Get,
            Endpoint::SpeedLimitsMode => HttpMethod::Get,
            Endpoint::DownloadLimit => HttpMethod::Get,
            Endpoint::UploadLimit => HttpMethod::Get,
            Endpoint::TorrentsInfo { .. } => HttpMethod::Get,
            Endpoint::TorrentsProperties { .. } => HttpMethod::Get,
            Endpoint::TorrentsTrackers { .. } => HttpMethod::Get,
            Endpoint::TorrentsWebseeds { .. } => HttpMethod::Get,
            Endpoint::TorrentsFiles { .. } => HttpMethod::Get,
            Endpoint::TorrentsPieceStates { .. } => HttpMethod::Get,
            Endpoint::TorrentsPieceHashes { .. } => HttpMethod::Get,
            Endpoint::TorrentsCategories => HttpMethod::Get,
            Endpoint::TorrentsTags => HttpMethod::Get,
            Endpoint::SearchStatus { .. } => HttpMethod::Get,
            Endpoint::SearchResults { .. } => HttpMethod::Get,
            _ => HttpMethod::Post,
        }
    }

    /// The parameters sent in the query string, if the endpoint has a query.
    pub open spec fn query_spec(self) -> Option<Seq<TextPair>> {
        match self {
            Endpoint::LogMain { q } => Some(
                opt_param("normal"@, opt_bool_text(q.normal)) + opt_param("info"@, opt_bool_text(q.info))
                + opt_param("warning"@, opt_bool_text(q.warning)) + opt_param("critical"@, opt_bool_text(q.critical))
                + opt_param("last_known_id"@, opt_i64_text(q.last_known_id)),
            ),
            Endpoint::LogPeers { q } => Some(
                opt_param("last_known_id"@, opt_i64_text(q.last_known_id)),
            ),
            Endpoint::Maindata { q } => Some(
                opt_param("rid"@, opt_i64_text(q.rid)),
            ),
            Endpoint::TorrentPeers { q } => Some(
                seq![("hash"@, q.hash@)] + opt_param("rid"@, opt_i64_text(q.rid)),
            ),
            Endpoint::TorrentsInfo { q } => Some(
                opt_param("filter"@, opt_text(q.filter)) + opt_param("category"@, opt_text(q.category))
                + opt_param("tag"@, opt_text(q.tag)) + opt_param("sort"@, opt_text(q.sort))
                + opt_param("reverse"@, opt_bool_text(q.reverse)) + opt_param("limit"@, opt_i64_text(q.limit))
                + opt_param("offset"@, opt_i64_text(q.offset)) + opt_param("hashes"@, opt_list_text(q.hashes, "|"@)),
            ),
            Endpoint::TorrentsProperties { hash } => Some(seq![("hash"@, hash@)]),
            Endpoint::TorrentsTrackers { hash } => Some(seq![("hash"@, hash@)]),
            Endpoint::TorrentsWebseeds { hash } => Some(seq![("hash"@, hash@)]),
            Endpoint::TorrentsFiles { hash } => Some(seq![("hash"@, hash@)]),
            Endpoint::TorrentsPieceStates { hash } => Some(seq![("hash"@, hash@)]),
            Endpoint::TorrentsPieceHashes { hash } => Some(seq![("hash"@, hash@)]),
            Endpoint::SearchStatus { id } => Some(
                opt_param("id"@, opt_u64_text(id)),
            ),
            Endpoint::SearchResults { id, limit, offset } => Some(
                seq![("id"@, decimal(id as nat))] + opt_param("limit"@, opt_i64_text(limit))
                + opt_param("offset"@, opt_i64_text(offset)),
            ),
            _ => None,
        }
    }

    /// The parameters sent as a form, if the endpoint has a form.
    pub open spec fn form_spec(self) -> Option<Seq<TextPair>> {
        match self {
            Endpoint::AuthLogin { username, password } => Some(seq![("username"@, username@), ("password"@, password@)]),
            Endpoint::AppSetPreferences { json } => Some(seq![("json"@, json@)]),
            Endpoint::SetDownloadLimit { limit } => Some(seq![("limit"@, decimal(limit as nat))]),
            Endpoint::SetUploadLimit { limit } => Some(seq![("limit"@, decimal(limit as nat))]),
            Endpoint::BanPeers { peers } => Some(seq![("peers"@, list_text(peers, "|"@))]),
            Endpoint::TorrentsPause { hashes } => Some(seq![("hashes"@, list_text(hashes, "|"@))]),
            Endpoint::TorrentsAddTrackers { hash, urls } => Some(seq![("hash"@, hash@), ("urls"@, list_text(urls, "\n"@))]),
            Endpoint::TorrentsEditTracker { hash, orig_url, new_url } => Some(seq![("hash"@, hash@), ("origUrl"@, orig_url@), ("newUrl"@, new_url@)]),
            Endpoint::TorrentsRemoveTrackers { hash, urls } => Some(seq![("hash"@, hash@), ("urls"@, list_text(urls, "|"@))]),
            Endpoint::TorrentsAddPeers { hashes, peers } => Some(seq![("hashes"@, list_text(hashes, "|"@)), ("peers"@, list_text(peers, "|"@))]),
            Endpoint::TorrentsIncreasePrio { hashes } => Some(seq![("hashes"@, list_text(hashes, "|"@))]),
            Endpoint::TorrentsDecreasePrio { hashes } => Some(seq![("hashes"@, list_text(hashes, "|"@))]),
            Endpoint::TorrentsTopPrio { hashes } => Some(seq![("hashes"@, list_text(hashes, "|"@))]),
            Endpoint::TorrentsBottomPrio { hashes } => Some(seq![("hashes"@, list_text(hashes, "|"@))]),
            Endpoint::TorrentsDownloadLimit { hashes } => Some(seq![("hashes"@, list_text(hashes, "|"@))]),
            Endpoint::TorrentsSetDownloadLimit { hashes, limit } => Some(seq![("hashes"@, list_text(hashes, "|"@)), ("limit"@, decimal(limit as nat))]),
            Endpoint::TorrentsSetShareLimits { hashes, ratio_limit, seeding_time_limit } => Some(seq![("hashes"@, list_text(hashes, "|"@)), ("ratioLimit"@, ratio_limit@), ("seedingTimeLimit"@, signed_decimal(seeding_time_limit as int))]),
            Endpoint::TorrentsUploadLimit { hashes } => Some(seq![("hashes"@, list_text(hashes, "|"@))]),
            Endpoint::TorrentsSetUploadLimit { hashes, limit } => Some(seq![("hashes"@, list_text(hashes, "|"@)), ("limit"@, decimal(limit as nat))]),
            Endpoint::TorrentsSetLocation { hashes, location } => Some(seq![("hashes"@, list_text(hashes, "|"@)), ("location"@, location@)]),
            Endpoint::TorrentsRename { hash, name } => Some(seq![("hash"@, hash@), ("name"@, name@)]),
            Endpoint::TorrentsSetCategory { hashes, category } => Some(seq![("hashes"@, list_text(hashes, "|"@)), ("category"@, category@)]),
            Endpoint::TorrentsCreateCategory { category, save_path } => Some(seq![("category"@, category@), ("savePath"@, save_path@)]),
            Endpoint::TorrentsEditCategory { category, save_path } => Some(seq![("category"@, category@), ("savePath"@, save_path@)]),
            Endpoint::TorrentsRemoveCategories { categories } => Some(seq![("categories"@, list_text(categories, "\n"@))]),
            Endpoint::TorrentsAddTags { hashes, tags } => Some(seq![("hashes"@, list_text(hashes, "|"@)), ("tags"@, list_text(tags, ","@))]),
            Endpoint::TorrentsRemoveTags { hashes, tags } => Some(seq![("hashes"@, list_text(hashes, "|"@)), ("tags"@, list_text(tags, ","@))]),
            Endpoint::TorrentsCreateTags { tags } => Some(seq![("tags"@, list_text(tags, ","@))]),
            Endpoint::TorrentsDeleteTags { tags } => Some(seq![("tags"@, list_text(tags, ","@))]),
            Endpoint::TorrentsSetAutoManagement { hashes, enable } => Some(seq![("hashes"@, list_text(hashes, "|"@)), ("enable"@, bool_text(enable))]),
            Endpoint::TorrentsToggleSequentialDownload { hashes } => Some(seq![("hashes"@, list_text(hashes, "|"@))]),
            Endpoint::TorrentsToggleFirstLastPiecePrio { hashes } => Some(seq![("hashes"@, list_text(hashes, "|"@))]),
            Endpoint::TorrentsSetForceStart { hashes, value } => Some(seq![("hashes"@, list_text(hashes, "|"@)), ("value"@, bool_text(value))]),
            Endpoint::TorrentsSetSuperSeeding { hashes, value } => Some(seq![("hashes"@, list_text(hashes, "|"@)), ("value"@, bool_text(value))]),
            Endpoint::TorrentsRenameFile { hash, old_path, new_path } => Some(seq![("hash"@, hash@), ("oldPath"@, old_path@), ("newPath"@, new_path@)]),
            Endpoint::TorrentsRenameFolder { hash, old_path, new_path } => Some(seq![("hash"@, hash@), ("oldPath"@, old_path@), ("newPath"@, new_path@)]),
            Endpoint::SearchStart { pattern, plugins, category } => Some(seq![("pattern"@, pattern@), ("plugins"@, plugins@), ("category"@, category@)]),
            Endpoint::SearchStop { id } => Some(seq![("id"@, decimal(id as nat))]),
            _ => None,
        }
    }

    /// The multipart body, if the endpoint sends one and the upload has content.
    pub open spec fn multipart_spec(self) -> Option<MultipartView> {
        match self {
            Endpoint::TorrentsAdd { mp } => if mp.has_content_spec() {
                Some(mp.body_spec())
            } else {
                None
            },
            _ => None,
        }
    }

    /// The path of the endpoint, relative to the host URL.
    pub fn path(&self) -> (r: &'static str)
        ensures
            r@ == self.path_spec(),
    {
        match self {
            Endpoint::AuthLogin { .. } => "api/v2/auth/login",
            Endpoint::AuthLogout => "api/v2/auth/logout",
            Endpoint::AppVersion => "api/v2/app/version",
            Endpoint::AppWebApiVersion => "api/v2/app/webapiVersion",
            Endpoint::AppBuildInfo => "api/v2/app/buildInfo",
            Endpoint::AppPreferences => "api/v2/app/preferences",
            Endpoint::AppSetPreferences { .. } => "api/v2/app/setPreferences",
            Endpoint::AppDefaultSavePath => "api/v2/app/defaultSavePath",
            Endpoint::LogMain { .. } => "api/v2/log/main",
            Endpoint::LogPeers { .. } => "api/v2/log/peers",
            Endpoint::Maindata { .. } => "api/v2/sync/maindata",
            Endpoint::TorrentPeers { .. } => "api/v2/sync/torrentPeers",
            Endpoint::TransferInfo => "api/v2/transfer/info",
            Endpoint::SpeedLimitsMode => "api/v2/transfer/speedLimitsMode",
            Endpoint::ToggleSpeedLimitsMode => "api/v2/transfer/toggleSpeedLimitsMode",
            Endpoint::DownloadLimit => "api/v2/transfer/downloadLimit",
            Endpoint::SetDownloadLimit { .. } => "api/v2/transfer/setDownloadLimit",
            Endpoint::UploadLimit => "api/v2/transfer/uploadLimit",
            Endpoint::SetUploadLimit { .. } => "api/v2/transfer/setUploadLimit",
            Endpoint::BanPeers { .. } => "api/v2/transfer/banPeers",
            Endpoint::TorrentsInfo { .. } => "api/v2/torrents/info",
            Endpoint::TorrentsProperties { .. } => "api/v2/torrents/properties",
            Endpoint::TorrentsTrackers { .. } => "api/v2/torrents/trackers",
            Endpoint::TorrentsWebseeds { .. } => "api/v2/torrents/webseeds",
            Endpoint::TorrentsFiles { .. } => "api/v2/torrents/files",
            Endpoint::TorrentsPieceStates { .. } => "api/v2/torrents/pieceStates",
            Endpoint::TorrentsPieceHashes { .. } => "api/v2/torrents/pieceHashes",
            Endpoint::TorrentsPause { .. } => "api/v2/torrents/pause",
            Endpoint::TorrentsAdd { .. } => "api/v2/torrents/add",
            Endpoint::TorrentsAddTrackers { .. } => "api/v2/torrents/addTrackers",
            Endpoint::TorrentsEditTracker { .. } => "api/v2/torrents/editTracker",
            Endpoint::TorrentsRemoveTrackers { .. } => "api/v2/torrents/removeTrackers",
            Endpoint::TorrentsAddPeers { .. } => "api/v2/torrents/addPeers",
            Endpoint::TorrentsIncreasePrio { .. } => "api/v2/torrents/increasePrio",
            Endpoint::TorrentsDecreasePrio { .. } => "api/v2/torrents/decreasePrio",
            Endpoint::TorrentsTopPrio { .. } => "api/v2/torrents/topPrio",
            Endpoint::TorrentsBottomPrio { .. } => "api/v2/torrents/bottomPrio",
            Endpoint::TorrentsDownloadLimit { .. } => "api/v2/torrents/downloadLimit",
            Endpoint::TorrentsSetDownloadLimit { .. } => "api/v2/torrents/setDownloadLimit",
            Endpoint::TorrentsSetShareLimits { .. } => "api/v2/torrents/setShareLimits",
            Endpoint::TorrentsUploadLimit { .. } => "api/v2/torrents/uploadLimit",
            Endpoint::TorrentsSetUploadLimit { .. } => "api/v2/torrents/setUploadLimit",
            Endpoint::TorrentsSetLocation { .. } => "api/v2/torrents/setLocation",
            Endpoint::TorrentsRename { .. } => "api/v2/torrents/rename",
            Endpoint::TorrentsSetCategory { .. } => "api/v2/torrents/setCategory",
            Endpoint::TorrentsCategories => "api/v2/torrents/categories",
            Endpoint::TorrentsCreateCategory { .. } => "api/v2/torrents/createCategory",
            Endpoint::TorrentsEditCategory { .. } => "api/v2/torrents/editCategory",
            Endpoint::TorrentsRemoveCategories { .. } => "api/v2/torrents/removeCategories",
            Endpoint::TorrentsAddTags { .. } => "api/v2/torrents/addTags",
            Endpoint::TorrentsRemoveTags { .. } => "api/v2/torrents/removeTags",
            Endpoint::TorrentsTags => "api/v2/torrents/tags",
            Endpoint::TorrentsCreateTags { .. } => "api/v2/torrents/createTags",
            Endpoint::TorrentsDeleteTags { .. } => "api/v2/torrents/deleteTags",
            Endpoint::TorrentsSetAutoManagement { .. } => "api/v2/torrents/setAutoManagement",
            Endpoint::TorrentsToggleSequentialDownload { .. } => "api/v2/torrents/toggleSequentialDownload",
            Endpoint::TorrentsToggleFirstLastPiecePrio { .. } => "api/v2/torrents/toggleFirstLastPiecePrio",
            Endpoint::TorrentsSetForceStart { .. } => "api/v2/torrents/setForceStart",
            Endpoint::TorrentsSetSuperSeeding { .. } => "api/v2/torrents/setSuperSeeding",
            Endpoint::TorrentsRenameFile { .. } => "api/v2/torrents/renameFile",
            Endpoint::TorrentsRenameFolder { .. } => "api/v2/torrents/renameFolder",
            Endpoint::SearchStart { .. } => "api/v2/search/start",
            Endpoint::SearchStop { .. } => "api/v2/search/stop",
            Endpoint::SearchStatus { .. } => "api/v2/search/status",
            Endpoint::SearchResults { .. } => "api/v2/search/results",
        }
    }

    /// The HTTP method of the endpoint.
    pub fn method(&self) -> (r: HttpMethod)
        ensures
            r == self.method_spec(),
    {
        match self {
            Endpoint::AppVersion => HttpMethod::Get,
            Endpoint::AppWebApiVersion => HttpMethod::Get,
            Endpoint::AppBuildInfo => HttpMethod::Get,
            Endpoint::AppPreferences => HttpMethod::Get,
            Endpoint::AppDefaultSavePath => HttpMethod::Get,
            Endpoint::LogMain { .. } => HttpMethod::Get,
            Endpoint::LogPeers { .. } => HttpMethod::Get,
            Endpoint::Maindata { .. } => HttpMethod::Get,
            Endpoint::TorrentPeers { .. } => HttpMethod::Get,
            Endpoint::TransferInfo => HttpMethod::Get,
            Endpoint::SpeedLimitsMode => HttpMethod::Get,
            Endpoint::DownloadLimit => HttpMethod::Get,
            Endpoint::UploadLimit => HttpMethod::Get,
            Endpoint::TorrentsInfo { .. } => HttpMethod::Get,
            Endpoint::TorrentsProperties { .. } => HttpMethod::Get,
            Endpoint::TorrentsTrackers { .. } => HttpMethod::Get,
            Endpoint::TorrentsWebseeds { .. } => HttpMethod::Get,
            Endpoint::TorrentsFiles { .. } => HttpMethod::Get,
            Endpoint::TorrentsPieceStates { .. } => HttpMethod::Get,
            Endpoint::TorrentsPieceHashes { .. } => HttpMethod::Get,
            Endpoint::TorrentsCategories => HttpMethod::Get,
            Endpoint::TorrentsTags => HttpMethod::Get,
            Endpoint::SearchStatus { .. } => HttpMethod::Get,
            Endpoint::SearchResults { .. } => HttpMethod::Get,
            _ => HttpMethod::Post,
        }
    }

    /// Writes the parameters of the request.
    pub fn into_parts(self) -> (r: EndpointParts)
        ensures
            opt_pairs_view(r.query) == self.query_spec(),
            opt_pairs_view(r.form) == self.form_spec(),
            opt_multipart_view(r.multipart) == self.multipart_spec(),
    {
        match self {
            Endpoint::AuthLogin { username, password } => EndpointParts {
                query: None,
                form: Some(params2("username", username, "password", password)),
                multipart: None,
            },
            Endpoint::AuthLogout => EndpointParts { query: None, form: None, multipart: None },
            Endpoint::AppVersion => EndpointParts { query: None, form: None, multipart: None },
            Endpoint::AppWebApiVersion => EndpointParts { query: None, form: None, multipart: None },
            Endpoint::AppBuildInfo => EndpointParts { query: None, form: None, multipart: None },
            Endpoint::AppPreferences => EndpointParts { query: None, form: None, multipart: None },
            Endpoint::AppSetPreferences { json } => EndpointParts {
                query: None,
                form: Some(params1("json", json)),
                multipart: None,
            },
            Endpoint::AppDefaultSavePath => EndpointParts { query: None, form: None, multipart: None },
            Endpoint::LogMain { q } => {
                let ghost spec_q = Endpoint::LogMain { q }.query_spec();
                let mut v = no_params();
                push_opt(&mut v, "normal", opt_bool_str(q.normal));
                push_opt(&mut v, "info", opt_bool_str(q.info));
                push_opt(&mut v, "warning", opt_bool_str(q.warning));
                push_opt(&mut v, "critical", opt_bool_str(q.critical));
                push_opt(&mut v, "last_known_id", opt_i64_str(q.last_known_id));
                proof {
                    assert(pairs_view(v@) =~= spec_q.unwrap());
                }
                EndpointParts { query: Some(v), form: None, multipart: None }
            },
            Endpoint::LogPeers { q } => {
                let ghost spec_q = Endpoint::LogPeers { q }.query_spec();
                let mut v = no_params();
                push_opt(&mut v, "last_known_id", opt_i64_str(q.last_known_id));
                proof {
                    assert(pairs_view(v@) =~= spec_q.unwrap());
                }
                EndpointParts { query: Some(v), form: None, multipart: None }
            },
            Endpoint::Maindata { q } => {
                let ghost spec_q = Endpoint::Maindata { q }.query_spec();
                let mut v = no_params();
                push_opt(&mut v, "rid", opt_i64_str(q.rid));
                proof {
                    assert(pairs_view(v@) =~= spec_q.unwrap());
                }
                EndpointParts { query: Some(v), form: None, multipart: None }
            },
            Endpoint::TorrentPeers { q } => {
                let ghost spec_q = Endpoint::TorrentPeers { q }.query_spec();
                let mut v = no_params();
                push_param(&mut v, "hash", q.hash);
                push_opt(&mut v, "rid", opt_i64_str(q.rid));
                proof {
                    assert(pairs_view(v@) =~= spec_q.unwrap());
                }
                EndpointParts { query: Some(v), form: None, multipart: None }
            },
            Endpoint::TransferInfo => EndpointParts { query: None, form: None, multipart: None },
            Endpoint::SpeedLimitsMode => EndpointParts { query: None, form: None, multipart: None },
            Endpoint::ToggleSpeedLimitsMode => EndpointParts { query: None, form: None, multipart: None },
            Endpoint::DownloadLimit => EndpointParts { query: None, form: None, multipart: None },
            Endpoint::SetDownloadLimit { limit } => EndpointParts {
                query: None,
                form: Some(params1("limit", u64_text(limit))),
                multipart: None,
            },
            Endpoint::UploadLimit => EndpointParts { query: None, form: None, multipart: None },
            Endpoint::SetUploadLimit { limit } => EndpointParts {
                query: None,
                form: Some(params1("limit", u64_text(limit))),
                multipart: None,
            },
            Endpoint::BanPeers { peers } => EndpointParts {
                query: None,
                form: Some(params1("peers", join_strings(&peers, "|"))),
                multipart: None,
            },
            Endpoint::TorrentsInfo { q } => {
                let ghost spec_q = Endpoint::TorrentsInfo { q }.query_spec();
                let mut v = no_params();
                push_opt(&mut v, "filter", q.filter);
                push_opt(&mut v, "category", q.category);
                push_opt(&mut v, "tag", q.tag);
                push_opt(&mut v, "sort", q.sort);
                push_opt(&mut v, "reverse", opt_bool_str(q.reverse));
                push_opt(&mut v, "limit", opt_i64_str(q.limit));
                push_opt(&mut v, "offset", opt_i64_str(q.offset));
                push_opt(&mut v, "hashes", opt_list_str(q.hashes, "|"));
                proof {
                    assert(pairs_view(v@) =~= spec_q.unwrap());
                }
                EndpointParts { query: Some(v), form: None, multipart: None }
            },
            Endpoint::TorrentsProperties { hash } => EndpointParts {
                query: Some(params1("hash", hash)),
                form: None,
                multipart: None,
            },
            Endpoint::TorrentsTrackers { hash } => EndpointParts {
                query: Some(params1("hash", hash)),
                form: None,
                multipart: None,
            },
            Endpoint::TorrentsWebseeds { hash } => EndpointParts {
                query: Some(params1("hash", hash)),
                form: None,
                multipart: None,
            },
            Endpoint::TorrentsFiles { hash } => EndpointParts {
                query: Some(params1("hash", hash)),
                form: None,
                multipart: None,
            },
            Endpoint::TorrentsPieceStates { hash } => EndpointParts {
                query: Some(params1("hash", hash)),
                form: None,
                multipart: None,
            },
            Endpoint::TorrentsPieceHashes { hash } => EndpointParts {
                query: Some(params1("hash", hash)),
                form: None,
                multipart: None,
            },
            Endpoint::TorrentsPause { hashes } => EndpointParts {
                query: None,
                form: Some(params1("hashes", join_strings(&hashes, "|"))),
                multipart: None,
            },
            Endpoint::TorrentsAdd { mp } => {
                let multipart = if mp.has_content() {
                    Some(mp.into_body())
                } else {
                    None
                };
                EndpointParts { query: None, form: None, multipart }
            },
            Endpoint::TorrentsAddTrackers { hash, urls } => EndpointParts {
                query: None,
                form: Some(params2("hash", hash, "urls", join_strings(&urls, "\n"))),
                multipart: None,
            },
            Endpoint::TorrentsEditTracker { hash, orig_url, new_url } => EndpointParts {
                query: None,
                form: Some(params3("hash", hash, "origUrl", orig_url, "newUrl", new_url)),
                multipart: None,
            },
            Endpoint::TorrentsRemoveTrackers { hash, urls } => EndpointParts {
                query: None,
                form: Some(params2("hash", hash, "urls", join_strings(&urls, "|"))),
                multipart: None,
            },
            Endpoint::TorrentsAddPeers { hashes, peers } => EndpointParts {
                query: None,
                form: Some(params2("hashes", join_strings(&hashes, "|"), "peers", join_strings(&peers, "|"))),
                multipart: None,
            },
            Endpoint::TorrentsIncreasePrio { hashes } => EndpointParts {
                query: None,
                form: Some(params1("hashes", join_strings(&hashes, "|"))),
                multipart: None,
            },
            Endpoint::TorrentsDecreasePrio { hashes } => EndpointParts {
                query: None,
                form: Some(params1("hashes", join_strings(&hashes, "|"))),
                multipart: None,
            },
            Endpoint::TorrentsTopPrio { hashes } => EndpointParts {
                query: None,
                form: Some(params1("hashes", join_strings(&hashes, "|"))),
                multipart: None,
            },
            Endpoint::TorrentsBottomPrio { hashes } => EndpointParts {
                query: None,
                form: Some(params1("hashes", join_strings(&hashes, "|"))),
                multipart: None,
            },
            Endpoint::TorrentsDownloadLimit { hashes } => EndpointParts {
                query: None,
                form: Some(params1("hashes", join_strings(&hashes, "|"))),
                multipart: None,
            },
            Endpoint::TorrentsSetDownloadLimit { hashes, limit } => EndpointParts {
                query: None,
                form: Some(params2("hashes", join_strings(&hashes, "|"), "limit", u64_text(limit))),
                multipart: None,
            },
            Endpoint::TorrentsSetShareLimits { hashes, ratio_limit, seeding_time_limit } => EndpointParts {
                query: None,
                form: Some(params3("hashes", join_strings(&hashes, "|"), "ratioLimit", ratio_limit, "seedingTimeLimit", i64_text(seeding_time_limit))),
                multipart: None,
            },
            Endpoint::TorrentsUploadLimit { hashes } => EndpointParts {
                query: None,
                form: Some(params1("hashes", join_strings(&hashes, "|"))),
                multipart: None,
            },
            Endpoint::TorrentsSetUploadLimit { hashes, limit } => EndpointParts {
                query: None,
                form: Some(params2("hashes", join_strings(&hashes, "|"), "limit", u64_text(limit))),
                multipart: None,
            },
            Endpoint::TorrentsSetLocation { hashes, location } => EndpointParts {
                query: None,
                form: Some(params2("hashes", join_strings(&hashes, "|"), "location", location)),
                multipart: None,
            },
            Endpoint::TorrentsRename { hash, name } => EndpointParts {
                query: None,
                form: Some(params2("hash", hash, "name", name)),
                multipart: None,
            },
            Endpoint::TorrentsSetCategory { hashes, category } => EndpointParts {
                query: None,
                form: Some(params2("hashes", join_strings(&hashes, "|"), "category", category)),
                multipart: None,
            },
            Endpoint::TorrentsCategories => EndpointParts { query: None, form: None, multipart: None },
            Endpoint::TorrentsCreateCategory { category, save_path } => EndpointParts {
                query: None,
                form: Some(params2("category", category, "savePath", save_path)),
                multipart: None,
            },
            Endpoint::TorrentsEditCategory { category, save_path } => EndpointParts {
                query: None,
                form: Some(params2("category", category, "savePath", save_path)),
                multipart: None,
            },
            Endpoint::TorrentsRemoveCategories { categories } => EndpointParts {
                query: None,
                form: Some(params1("categories", join_strings(&categories, "\n"))),
                multipart: None,
            },
            Endpoint::TorrentsAddTags { hashes, tags } => EndpointParts {
                query: None,
                form: Some(params2("hashes", join_strings(&hashes, "|"), "tags", join_strings(&tags, ","))),
                multipart: None,
            },
            Endpoint::TorrentsRemoveTags { hashes, tags } => EndpointParts {
                query: None,
                form: Some(params2("hashes", join_strings(&hashes, "|"), "tags", join_strings(&tags, ","))),
                multipart: None,
            },
            Endpoint::TorrentsTags => EndpointParts { query: None, form: None, multipart: None },
            Endpoint::TorrentsCreateTags { tags } => EndpointParts {
                query: None,
                form: Some(params1("tags", join_strings(&tags, ","))),
                multipart: None,
            },
            Endpoint::TorrentsDeleteTags { tags } => EndpointParts {
                query: None,
                form: Some(params1("tags", join_strings(&tags, ","))),
                multipart: None,
            },
            Endpoint::TorrentsSetAutoManagement { hashes, enable } => EndpointParts {
                query: None,
                form: Some(params2("hashes", join_strings(&hashes, "|"), "enable", bool_str(enable))),
                multipart: None,
            },
            Endpoint::TorrentsToggleSequentialDownload { hashes } => EndpointParts {
                query: None,
                form: Some(params1("hashes", join_strings(&hashes, "|"))),
                multipart: None,
            },
            Endpoint::TorrentsToggleFirstLastPiecePrio { hashes } => EndpointParts {
                query: None,
                form: Some(params1("hashes", join_strings(&hashes, "|"))),
                multipart: None,
            },
            Endpoint::TorrentsSetForceStart { hashes, value } => EndpointParts {
                query: None,
                form: Some(params2("hashes", join_strings(&hashes, "|"), "value", bool_str(value))),
                multipart: None,
            },
            Endpoint::TorrentsSetSuperSeeding { hashes, value } => EndpointParts {
                query: None,
                form: Some(params2("hashes", join_strings(&hashes, "|"), "value", bool_str(value))),
                multipart: None,
            },
            Endpoint::TorrentsRenameFile { hash, old_path, new_path } => EndpointParts {
                query: None,
                form: Some(params3("hash", hash, "oldPath", old_path, "newPath", new_path)),
                multipart: None,
            },
            Endpoint::TorrentsRenameFolder { hash, old_path, new_path } => EndpointParts {
                query: None,
                form: Some(params3("hash", hash, "oldPath", old_path, "newPath", new_path)),
                multipart: None,
            },
            Endpoint::SearchStart { pattern, plugins, category } => EndpointParts {
                query: None,
                form: Some(params3("pattern", pattern, "plugins", plugins, "category", category)),
                multipart: None,
            },
            Endpoint::SearchStop { id } => EndpointParts {
                query: None,
                form: Some(params1("id", u64_text(id))),
                multipart: None,
            },
            Endpoint::SearchStatus { id } => {
                let ghost spec_q = Endpoint::SearchStatus { id }.query_spec();
                let mut v = no_params();
                push_opt(&mut v, "id", opt_u64_str(id));
                proof {
                    assert(pairs_view(v@) =~= spec_q.unwrap());
                }
                EndpointParts { query: Some(v), form: None, multipart: None }
            },
            Endpoint::SearchResults { id, limit, offset } => {
                let ghost spec_q = Endpoint::SearchResults { id, limit, offset }.query_spec();
                let mut v = no_params();
                push_param(&mut v, "id", u64_text(id));
                push_opt(&mut v, "limit", opt_i64_str(limit));
                push_opt(&mut v, "offset", opt_i64_str(offset));
                proof {
                    assert(pairs_view(v@) =~= spec_q.unwrap());
                }
                EndpointParts { query: Some(v), form: None, multipart: None }
            },
        }
    }
}

} // verus!
