//! The client: its host and credentials, and the request that each call makes.
use vstd::prelude::*;
use vstd::string::*;
use crate::encode::{bool_text, decimal, joined, signed_decimal, views};
use crate::endpoint::{
    AppSetPreferencesForm, Endpoint, LogMainQuery, LogPeersQuery, SyncMaindataQuery,
    SyncTorrentPeersQuery, TorrentsAddMultipart, TorrentsInfoQuery,
};
use crate::error::ClientError;
use crate::header::{check_header_value, header_text_valid};
use crate::request::{files_view, HttpMethod, MultipartView, PreparedRequest, PreparedView, TextPair};
use crate::endpoint_laws::{lookup, parameters_sent_by_name};
use crate::params::{list_text, opt_bool_text, opt_i64_text, opt_list_text, opt_text, opt_u64_text};
use crate::url_text::{join_url, parse_url, url_join_result, url_parse_result};

verus! {

/// A user name and password for the Web API.
#[derive(Debug, Clone)]
pub struct Credential {
    pub username: String,
    pub password: String,
}

/// A client of one qBittorrent server.
///
/// `host` is the serialization of the server's base URL, as `url::Url` writes it.
#[derive(Debug)]
pub struct QbitClient {
    pub host: String,
    pub auth: Credential,
}

/// What `try_new` and `new_with_user_pwd` give for a host, user name and password:
/// a client for the parsed host URL with these credentials, or, where the host is
/// not a URL, `ClientError::Initialize` with the parser's message.
pub open spec fn new_client_outcome(
    host: Seq<char>,
    username: Seq<char>,
    password: Seq<char>,
    r: Result<QbitClient, ClientError>,
) -> bool {
    match url_parse_result(host) {
        Ok(url) => r matches Ok(c) && c.host@ == url && c.auth.username@ == username
            && c.auth.password@ == password,
        Err(msg) => r matches Err(ClientError::Initialize(m)) && m@ == msg,
    }
}

/// The message of a missing or unreadable environment variable: its name in
/// backquotes, a space, and the reason.
pub open spec fn env_message(name: Seq<char>, reason: Seq<char>) -> Seq<char> {
    seq!['`'] + name + seq!['`', ' '] + reason
}

/// What `credentials_from_env` gives for the lookups of `QBIT_HOST`,
/// `QBIT_USERNAME` and `QBIT_PASSWORD`: the three values when all were read,
/// otherwise `ClientError::Initialize` naming the first one that was not.
pub open spec fn env_outcome(
    host: Result<String, String>,
    username: Result<String, String>,
    password: Result<String, String>,
    r: Result<(String, String, String), ClientError>,
) -> bool {
    match (host, username, password) {
        (Ok(h), Ok(u), Ok(p)) => r matches Ok(t) && t.0@ == h@ && t.1@ == u@ && t.2@ == p@,
        (Err(e), _, _) => r matches Err(ClientError::Initialize(m)) && m@ == env_message(
            "QBIT_HOST"@,
            e@,
        ),
        (Ok(_), Err(e), _) => r matches Err(ClientError::Initialize(m)) && m@ == env_message(
            "QBIT_USERNAME"@,
            e@,
        ),
        (Ok(_), Ok(_), Err(e)) => r matches Err(ClientError::Initialize(m)) && m@ == env_message(
            "QBIT_PASSWORD"@,
            e@,
        ),
    }
}

fn env_error(name: &str, reason: String) -> (r: ClientError)
    ensures
        r matches ClientError::Initialize(m) && m@ == env_message(name@, reason@),
{
    proof {
        reveal_strlit("`");
        reveal_strlit("` ");
    }
    let mut m = "`".to_owned();
    m.append(name);
    m.append("` ");
    m.append(reason.as_str());
    proof {
        assert(m@ =~= env_message(name@, reason@));
    }
    ClientError::Initialize(m)
}

/// Takes the results of reading the environment variables `QBIT_HOST`,
/// `QBIT_USERNAME` and `QBIT_PASSWORD` (the value, or why it could not be read),
/// and gives the three values or the error about the first one that is missing.
pub fn credentials_from_env(
    host: Result<String, String>,
    username: Result<String, String>,
    password: Result<String, String>,
) -> (r: Result<(String, String, String), ClientError>)
    ensures
        env_outcome(host, username, password, r),
{
    let h = match host {
        Ok(h) => h,
        Err(e) => {
            return Err(env_error("QBIT_HOST", e));
        },
    };
    let u = match username {
        Ok(u) => u,
        Err(e) => {
            return Err(env_error("QBIT_USERNAME", e));
        },
    };
    let p = match password {
        Ok(p) => p,
        Err(e) => {
            return Err(env_error("QBIT_PASSWORD", e));
        },
    };
    Ok((h, u, p))
}

/// A login: whether the session cookies are dropped before anything else is
/// done, and the login request (or why it could not be written).
pub struct LoginCall {
    pub clears_session: bool,
    pub request: Result<PreparedRequest, ClientError>,
}

/// Whether an HTTP status is a success (200 to 299).
pub open spec fn is_success(status: u16) -> bool {
    200 <= status <= 299
}

/// The error that an HTTP status means, if any: none for a success, otherwise
/// `ClientError::Status` with the status.
pub fn check_status(status: u16) -> (r: Option<ClientError>)
    ensures
        is_success(status) ==> r is None,
        !is_success(status) ==> (r matches Some(ClientError::Status(s)) && s == status),
{
    if 200 <= status && status <= 299 {
        None
    } else {
        Some(ClientError::Status(status))
    }
}

/// The result of a call, given the status and body of the server's response:
/// the body when the status is a success, otherwise the status error.
pub fn response_text(status: u16, body: String) -> (r: Result<String, ClientError>)
    ensures
        is_success(status) ==> (r matches Ok(b) && b@ == body@),
        !is_success(status) ==> (r matches Err(ClientError::Status(s)) && s == status),
{
    match check_status(status) {
        Some(e) => Err(e),
        None => Ok(body),
    }
}

impl QbitClient {
    /// The request that calling the endpoint `e` makes: sent to the endpoint's
    /// path joined onto the host URL, with the host as `Referer`, carrying the
    /// endpoint's method, query, form and multipart body; or the errors of
    /// `request_outcome`.
    pub open spec fn prepared_spec(self, e: Endpoint, r: Result<PreparedRequest, ClientError>) -> bool {
        self.request_outcome(
            e.path_spec(),
            e.method_spec(),
            e.query_spec(),
            e.form_spec(),
            e.multipart_spec(),
            r,
        )
    }

    /// A request to `path` (joined onto the host URL) with the given method,
    /// query, form and multipart body, and the host as
    /// `Referer`; or `ClientError::InvalidUrl` with the parser's message where the
    /// path cannot be joined onto the host, or else `ClientError::InvalidHeader`
    /// where the host cannot be sent as a header value.
    pub open spec fn request_outcome(
        self,
        path: Seq<char>,
        method: HttpMethod,
        query: Option<Seq<TextPair>>,
        form: Option<Seq<TextPair>>,
        multipart: Option<MultipartView>,
        r: Result<PreparedRequest, ClientError>,
    ) -> bool {
        match url_join_result(self.host@, path) {
            Ok(url) => if !header_text_valid(self.host@) {
                r matches Err(ClientError::InvalidHeader(m)) && m@ == "failed to parse header value"@
            } else {
                r matches Ok(p) && p@ == PreparedView {
                    method,
                    url,
                    referer: self.host@,
                    query,
                    form,
                    multipart,
                }
            },
            Err(msg) => r matches Err(ClientError::InvalidUrl(m)) && m@ == msg,
        }
    }

    fn try_new(host: String, username: String, password: String) -> (r: Result<Self, ClientError>)
        ensures
            new_client_outcome(host@, username@, password@, r),
    {
        match parse_url(host.as_str()) {
            Ok(url) => Ok(QbitClient { host: url, auth: Credential { username, password } }),
            Err(m) => Err(ClientError::Initialize(m)),
        }
    }

    /// A client for the server at `host`, logging in as `username` with `password`.
    pub fn new_with_user_pwd(host: &str, username: &str, password: &str) -> (r: Result<Self, ClientError>)
        ensures
            new_client_outcome(host@, username@, password@, r),
    {
        Self::try_new(host.to_owned(), username.to_owned(), password.to_owned())
    }

    /// Writes the request of a call of the endpoint `e`.
    pub fn prepare(&self, e: Endpoint) -> (r: Result<PreparedRequest, ClientError>)
        ensures
            self.prepared_spec(e, r),
    {
        let method = e.method();
        match join_url(self.host.as_str(), e.path()) {
            Ok(url) => {
                if let Err(m) = check_header_value(self.host.as_str()) {
                    return Err(ClientError::InvalidHeader(m));
                }
                let parts = e.into_parts();
                Ok(
                    PreparedRequest {
                        method,
                        url,
                        referer: self.host.clone(),
                        query: parts.query,
                        form: parts.form,
                        multipart: parts.multipart,
                    },
                )
            },
            Err(m) => Err(ClientError::InvalidUrl(m)),
        }
    }

    /// Logs in with the client's credentials. The session cookies are dropped
    /// first, whatever becomes of the login request.
    pub fn auth_login(&self) -> (r: LoginCall)
        ensures
            r.clears_session,
            self.prepared_spec(
                Endpoint::AuthLogin { username: self.auth.username, password: self.auth.password },
                r.request,
            ),
            r.request matches Ok(p) ==> (url_join_result(self.host@, "api/v2/auth/login"@) == Ok::<Seq<char>, Seq<char>>(p@.url)
                && p@.method == HttpMethod::Post
                && (p@.form matches Some(ps)
                    && ps.len() == 2
                    && lookup(ps, "username"@) == Some(self.auth.username@)
                    && lookup(ps, "password"@) == Some(self.auth.password@)
                    && p@.query is None)),
    {
        proof {
            parameters_sent_by_name(
                Endpoint::AuthLogin { username: self.auth.username, password: self.auth.password },
            );
        }
        let request = self.prepare(
            Endpoint::AuthLogin {
                username: self.auth.username.clone(),
                password: self.auth.password.clone(),
            },
        );
        LoginCall { clears_session: true, request }
    }

    /// Logs out.
    pub fn auth_logout(&self) -> (r: Result<PreparedRequest, ClientError>)
        ensures
            self.prepared_spec(Endpoint::AuthLogout, r),
            r matches Ok(p) ==> (url_join_result(self.host@, "api/v2/auth/logout"@) == Ok::<Seq<char>, Seq<char>>(p@.url)
                && p@.method == HttpMethod::Post
                && p@.query is None && p@.form is None && p@.multipart is None),
    {
        proof {
            parameters_sent_by_name(Endpoint::AuthLogout);
        }
        self.prepare(Endpoint::AuthLogout)
    }

    /// The application version.
    pub fn app_version(&self) -> (r: Result<PreparedRequest, ClientError>)
        ensures
            self.prepared_spec(Endpoint::AppVersion, r),
            r matches Ok(p) ==> (url_join_result(self.host@, "api/v2/app/version"@) == Ok::<Seq<char>, Seq<char>>(p@.url)
                && p@.method == HttpMethod::Get
                && p@.query is None && p@.form is None && p@.multipart is None),
    {
        proof {
            parameters_sent_by_name(Endpoint::AppVersion);
        }
        self.prepare(Endpoint::AppVersion)
    }

    /// The Web API version.
    pub fn app_webapi_version(&self) -> (r: Result<PreparedRequest, ClientError>)
        ensures
            self.prepared_spec(Endpoint::AppWebApiVersion, r),
            r matches Ok(p) ==> (url_join_result(self.host@, "api/v2/app/webapiVersion"@) == Ok::<Seq<char>, Seq<char>>(p@.url)
                && p@.method == HttpMethod::Get
                && p@.query is None && p@.form is None && p@.multipart is None),
    {
        proof {
            parameters_sent_by_name(Endpoint::AppWebApiVersion);
        }
        self.prepare(Endpoint::AppWebApiVersion)
    }

    /// Build information.
    pub fn app_build_info(&self) -> (r: Result<PreparedRequest, ClientError>)
        ensures
            self.prepared_spec(Endpoint::AppBuildInfo, r),
            r matches Ok(p) ==> (url_join_result(self.host@, "api/v2/app/buildInfo"@) == Ok::<Seq<char>, Seq<char>>(p@.url)
                && p@.method == HttpMethod::Get
                && p@.query is None && p@.form is None && p@.multipart is None),
    {
        proof {
            parameters_sent_by_name(Endpoint::AppBuildInfo);
        }
        self.prepare(Endpoint::AppBuildInfo)
    }

    /// The application preferences.
    pub fn app_preferences(&self) -> (r: Result<PreparedRequest, ClientError>)
        ensures
            self.prepared_spec(Endpoint::AppPreferences, r),
            r matches Ok(p) ==> (url_join_result(self.host@, "api/v2/app/preferences"@) == Ok::<Seq<char>, Seq<char>>(p@.url)
                && p@.method == HttpMethod::Get
                && p@.query is None && p@.form is None && p@.multipart is None),
    {
        proof {
            parameters_sent_by_name(Endpoint::AppPreferences);
        }
        self.prepare(Endpoint::AppPreferences)
    }

    /// Changes the preferences given as a JSON object.
    pub fn app_set_preferences(&self, f: AppSetPreferencesForm) -> (r: Result<PreparedRequest, ClientError>)
        ensures
            self.prepared_spec(Endpoint::AppSetPreferences { json: f.json }, r),
            r matches Ok(p) ==> (url_join_result(self.host@, "api/v2/app/setPreferences"@) == Ok::<Seq<char>, Seq<char>>(p@.url)
                && p@.method == HttpMethod::Post
                && (p@.form matches Some(ps)
                    && ps.len() == 1
                    && lookup(ps, "json"@) == Some(f.json@)
                    && p@.query is None)),
    {
        proof {
            parameters_sent_by_name(Endpoint::AppSetPreferences { json: f.json });
        }
        self.prepare(Endpoint::AppSetPreferences { json: f.json })
    }

    /// The default save path.
    pub fn app_default_save_path(&self) -> (r: Result<PreparedRequest, ClientError>)
        ensures
            self.prepared_spec(Endpoint::AppDefaultSavePath, r),
            r matches Ok(p) ==> (url_join_result(self.host@, "api/v2/app/defaultSavePath"@) == Ok::<Seq<char>, Seq<char>>(p@.url)
                && p@.method == HttpMethod::Get
                && p@.query is None && p@.form is None && p@.multipart is None),
    {
        proof {
            parameters_sent_by_name(Endpoint::AppDefaultSavePath);
        }
        self.prepare(Endpoint::AppDefaultSavePath)
    }

    /// The main log.
    pub fn log_main(&self, q: LogMainQuery) -> (r: Result<PreparedRequest, ClientError>)
        ensures
            self.prepared_spec(Endpoint::LogMain { q }, r),
            r matches Ok(p) ==> (url_join_result(self.host@, "api/v2/log/main"@) == Ok::<Seq<char>, Seq<char>>(p@.url)
                && p@.method == HttpMethod::Get
                && (p@.query matches Some(ps)
                    && lookup(ps, "normal"@) == opt_bool_text(q.normal)
                    && lookup(ps, "info"@) == opt_bool_text(q.info)
                    && lookup(ps, "warning"@) == opt_bool_text(q.warning)
                    && lookup(ps, "critical"@) == opt_bool_text(q.critical)
                    && lookup(ps, "last_known_id"@) == opt_i64_text(q.last_known_id)
                    && p@.form is None)),
    {
        proof {
            parameters_sent_by_name(Endpoint::LogMain { q });
        }
        self.prepare(Endpoint::LogMain { q })
    }

    /// The peer log.
    pub fn log_peers(&self, q: LogPeersQuery) -> (r: Result<PreparedRequest, ClientError>)
        ensures
            self.prepared_spec(Endpoint::LogPeers { q }, r),
            r matches Ok(p) ==> (url_join_result(self.host@, "api/v2/log/peers"@) == Ok::<Seq<char>, Seq<char>>(p@.url)
                && p@.method == HttpMethod::Get
                && (p@.query matches Some(ps)
                    && lookup(ps, "last_known_id"@) == opt_i64_text(q.last_known_id)
                    && p@.form is None)),
    {
        proof {
            parameters_sent_by_name(Endpoint::LogPeers { q });
        }
        self.prepare(Endpoint::LogPeers { q })
    }

    /// Changes of the main data since a response id.
    pub fn sync_maindata(&self, q: SyncMaindataQuery) -> (r: Result<PreparedRequest, ClientError>)
        ensures
            self.prepared_spec(Endpoint::Maindata { q }, r),
            r matches Ok(p) ==> (url_join_result(self.host@, "api/v2/sync/maindata"@) == Ok::<Seq<char>, Seq<char>>(p@.url)
                && p@.method == HttpMethod::Get
                && (p@.query matches Some(ps)
                    && lookup(ps, "rid"@) == opt_i64_text(q.rid)
                    && p@.form is None)),
    {
        proof {
            parameters_sent_by_name(Endpoint::Maindata { q });
        }
        self.prepare(Endpoint::Maindata { q })
    }

    /// Changes of the peers of a torrent since a response id.
    pub fn sync_torrent_peers(&self, q: SyncTorrentPeersQuery) -> (r: Result<PreparedRequest, ClientError>)
        ensures
            self.prepared_spec(Endpoint::TorrentPeers { q }, r),
            r matches Ok(p) ==> (url_join_result(self.host@, "api/v2/sync/torrentPeers"@) == Ok::<Seq<char>, Seq<char>>(p@.url)
                && p@.method == HttpMethod::Get
                && (p@.query matches Some(ps)
                    && lookup(ps, "hash"@) == Some(q.hash@)
                    && lookup(ps, "rid"@) == opt_i64_text(q.rid)
                    && p@.form is None)),
    {
        proof {
            parameters_sent_by_name(Endpoint::TorrentPeers { q });
        }
        self.prepare(Endpoint::TorrentPeers { q })
    }

    /// Global transfer information.
    pub fn transfer_info(&self) -> (r: Result<PreparedRequest, ClientError>)
        ensures
            self.prepared_spec(Endpoint::TransferInfo, r),
            r matches Ok(p) ==> (url_join_result(self.host@, "api/v2/transfer/info"@) == Ok::<Seq<char>, Seq<char>>(p@.url)
                && p@.method == HttpMethod::Get
                && p@.query is None && p@.form is None && p@.multipart is None),
    {
        proof {
            parameters_sent_by_name(Endpoint::TransferInfo);
        }
        self.prepare(Endpoint::TransferInfo)
    }

    /// Whether the alternative speed limits are on.
    pub fn speed_limits_mode(&self) -> (r: Result<PreparedRequest, ClientError>)
        ensures
            self.prepared_spec(Endpoint::SpeedLimitsMode, r),
            r matches Ok(p) ==> (url_join_result(self.host@, "api/v2/transfer/speedLimitsMode"@) == Ok::<Seq<char>, Seq<char>>(p@.url)
                && p@.method == HttpMethod::Get
                && p@.query is None && p@.form is None && p@.multipart is None),
    {
        proof {
            parameters_sent_by_name(Endpoint::SpeedLimitsMode);
        }
        self.prepare(Endpoint::SpeedLimitsMode)
    }

    /// Switches the alternative speed limits.
    pub fn toggle_speed_limits_mode(&self) -> (r: Result<PreparedRequest, ClientError>)
        ensures
            self.prepared_spec(Endpoint::ToggleSpeedLimitsMode, r),
            r matches Ok(p) ==> (url_join_result(self.host@, "api/v2/transfer/toggleSpeedLimitsMode"@) == Ok::<Seq<char>, Seq<char>>(p@.url)
                && p@.method == HttpMethod::Post
                && p@.query is None && p@.form is None && p@.multipart is None),
    {
        proof {
            parameters_sent_by_name(Endpoint::ToggleSpeedLimitsMode);
        }
        self.prepare(Endpoint::ToggleSpeedLimitsMode)
    }

    /// The global download limit.
    pub fn download_limit(&self) -> (r: Result<PreparedRequest, ClientError>)
        ensures
            self.prepared_spec(Endpoint::DownloadLimit, r),
            r matches Ok(p) ==> (url_join_result(self.host@, "api/v2/transfer/downloadLimit"@) == Ok::<Seq<char>, Seq<char>>(p@.url)
                && p@.method == HttpMethod::Get
                && p@.query is None && p@.form is None && p@.multipart is None),
    {
        proof {
            parameters_sent_by_name(Endpoint::DownloadLimit);
        }
        self.prepare(Endpoint::DownloadLimit)
    }

    /// Sets the global download limit.
    pub fn set_download_limit(&self, limit: u64) -> (r: Result<PreparedRequest, ClientError>)
        ensures
            self.prepared_spec(Endpoint::SetDownloadLimit { limit }, r),
            r matches Ok(p) ==> (url_join_result(self.host@, "api/v2/transfer/setDownloadLimit"@) == Ok::<Seq<char>, Seq<char>>(p@.url)
                && p@.method == HttpMethod::Post
                && (p@.form matches Some(ps)
                    && ps.len() == 1
                    && lookup(ps, "limit"@) == Some(decimal(limit as nat))
                    && p@.query is None)),
    {
        proof {
            parameters_sent_by_name(Endpoint::SetDownloadLimit { limit });
        }
        self.prepare(Endpoint::SetDownloadLimit { limit })
    }

    /// The global upload limit.
    pub fn upload_limit(&self) -> (r: Result<PreparedRequest, ClientError>)
        ensures
            self.prepared_spec(Endpoint::UploadLimit, r),
            r matches Ok(p) ==> (url_join_result(self.host@, "api/v2/transfer/uploadLimit"@) == Ok::<Seq<char>, Seq<char>>(p@.url)
                && p@.method == HttpMethod::Get
                && p@.query is None && p@.form is None && p@.multipart is None),
    {
        proof {
            parameters_sent_by_name(Endpoint::UploadLimit);
        }
        self.prepare(Endpoint::UploadLimit)
    }

    /// Sets the global upload limit.
    pub fn set_upload_limit(&self, limit: u64) -> (r: Result<PreparedRequest, ClientError>)
        ensures
            self.prepared_spec(Endpoint::SetUploadLimit { limit }, r),
            r matches Ok(p) ==> (url_join_result(self.host@, "api/v2/transfer/setUploadLimit"@) == Ok::<Seq<char>, Seq<char>>(p@.url)
                && p@.method == HttpMethod::Post
                && (p@.form matches Some(ps)
                    && ps.len() == 1
                    && lookup(ps, "limit"@) == Some(decimal(limit as nat))
                    && p@.query is None)),
    {
        proof {
            parameters_sent_by_name(Endpoint::SetUploadLimit { limit });
        }
        self.prepare(Endpoint::SetUploadLimit { limit })
    }

    /// Bans peers, each given as `host:port`.
    pub fn ban_peers(&self, peers: Vec<String>) -> (r: Result<PreparedRequest, ClientError>)
        ensures
            self.prepared_spec(Endpoint::BanPeers { peers }, r),
            r matches Ok(p) ==> (url_join_result(self.host@, "api/v2/transfer/banPeers"@) == Ok::<Seq<char>, Seq<char>>(p@.url)
                && p@.method == HttpMethod::Post
                && (p@.form matches Some(ps)
                    && ps.len() == 1
                    && lookup(ps, "peers"@) == Some(list_text(peers, "|"@))
                    && p@.query is None)),
    {
        proof {
            parameters_sent_by_name(Endpoint::BanPeers { peers });
        }
        self.prepare(Endpoint::BanPeers { peers })
    }

    /// The list of torrents, filtered.
    pub fn torrents_info(&self, q: TorrentsInfoQuery) -> (r: Result<PreparedRequest, ClientError>)
        ensures
            self.prepared_spec(Endpoint::TorrentsInfo { q }, r),
            r matches Ok(p) ==> (url_join_result(self.host@, "api/v2/torrents/info"@) == Ok::<Seq<char>, Seq<char>>(p@.url)
                && p@.method == HttpMethod::Get
                && (p@.query matches Some(ps)
                    && lookup(ps, "filter"@) == opt_text(q.filter)
                    && lookup(ps, "category"@) == opt_text(q.category)
                    && lookup(ps, "tag"@) == opt_text(q.tag)
                    && lookup(ps, "sort"@) == opt_text(q.sort)
                    && lookup(ps, "reverse"@) == opt_bool_text(q.reverse)
                    && lookup(ps, "limit"@) == opt_i64_text(q.limit)
                    && lookup(ps, "offset"@) == opt_i64_text(q.offset)
                    && lookup(ps, "hashes"@) == opt_list_text(q.hashes, "|"@)
                    && p@.form is None)),
    {
        proof {
            parameters_sent_by_name(Endpoint::TorrentsInfo { q });
        }
        self.prepare(Endpoint::TorrentsInfo { q })
    }

    /// The properties of a torrent.
    pub fn torrents_properties(&self, hash: String) -> (r: Result<PreparedRequest, ClientError>)
        ensures
            self.prepared_spec(Endpoint::TorrentsProperties { hash }, r),
            r matches Ok(p) ==> (url_join_result(self.host@, "api/v2/torrents/properties"@) == Ok::<Seq<char>, Seq<char>>(p@.url)
                && p@.method == HttpMethod::Get
                && (p@.query matches Some(ps)
                    && ps.len() == 1
                    && lookup(ps, "hash"@) == Some(hash@)
                    && p@.form is None)),
    {
        proof {
            parameters_sent_by_name(Endpoint::TorrentsProperties { hash });
        }
        self.prepare(Endpoint::TorrentsProperties { hash })
    }

    /// The trackers of a torrent.
    pub fn torrents_trackers(&self, hash: String) -> (r: Result<PreparedRequest, ClientError>)
        ensures
            self.prepared_spec(Endpoint::TorrentsTrackers { hash }, r),
            r matches Ok(p) ==> (url_join_result(self.host@, "api/v2/torrents/trackers"@) == Ok::<Seq<char>, Seq<char>>(p@.url)
                && p@.method == HttpMethod::Get
                && (p@.query matches Some(ps)
                    && ps.len() == 1
                    && lookup(ps, "hash"@) == Some(hash@)
                    && p@.form is None)),
    {
        proof {
            parameters_sent_by_name(Endpoint::TorrentsTrackers { hash });
        }
        self.prepare(Endpoint::TorrentsTrackers { hash })
    }

    /// The web seeds of a torrent.
    pub fn torrents_webseeds(&self, hash: String) -> (r: Result<PreparedRequest, ClientError>)
        ensures
            self.prepared_spec(Endpoint::TorrentsWebseeds { hash }, r),
            r matches Ok(p) ==> (url_join_result(self.host@, "api/v2/torrents/webseeds"@) == Ok::<Seq<char>, Seq<char>>(p@.url)
                && p@.method == HttpMethod::Get
                && (p@.query matches Some(ps)
                    && ps.len() == 1
                    && lookup(ps, "hash"@) == Some(hash@)
                    && p@.form is None)),
    {
        proof {
            parameters_sent_by_name(Endpoint::TorrentsWebseeds { hash });
        }
        self.prepare(Endpoint::TorrentsWebseeds { hash })
    }

    /// The files of a torrent.
    pub fn torrents_files(&self, hash: String) -> (r: Result<PreparedRequest, ClientError>)
        ensures
            self.prepared_spec(Endpoint::TorrentsFiles { hash }, r),
            r matches Ok(p) ==> (url_join_result(self.host@, "api/v2/torrents/files"@) == Ok::<Seq<char>, Seq<char>>(p@.url)
                && p@.method == HttpMethod::Get
                && (p@.query matches Some(ps)
                    && ps.len() == 1
                    && lookup(ps, "hash"@) == Some(hash@)
                    && p@.form is None)),
    {
        proof {
            parameters_sent_by_name(Endpoint::TorrentsFiles { hash });
        }
        self.prepare(Endpoint::TorrentsFiles { hash })
    }

    /// The states of the pieces of a torrent.
    pub fn torrents_piece_states(&self, hash: String) -> (r: Result<PreparedRequest, ClientError>)
        ensures
            self.prepared_spec(Endpoint::TorrentsPieceStates { hash }, r),
            r matches Ok(p) ==> (url_join_result(self.host@, "api/v2/torrents/pieceStates"@) == Ok::<Seq<char>, Seq<char>>(p@.url)
                && p@.method == HttpMethod::Get
                && (p@.query matches Some(ps)
                    && ps.len() == 1
                    && lookup(ps, "hash"@) == Some(hash@)
                    && p@.form is None)),
    {
        proof {
            parameters_sent_by_name(Endpoint::TorrentsPieceStates { hash });
        }
        self.prepare(Endpoint::TorrentsPieceStates { hash })
    }

    /// The hashes of the pieces of a torrent.
    pub fn torrents_piece_hashes(&self, hash: String) -> (r: Result<PreparedRequest, ClientError>)
        ensures
            self.prepared_spec(Endpoint::TorrentsPieceHashes { hash }, r),
            r matches Ok(p) ==> (url_join_result(self.host@, "api/v2/torrents/pieceHashes"@) == Ok::<Seq<char>, Seq<char>>(p@.url)
                && p@.method == HttpMethod::Get
                && (p@.query matches Some(ps)
                    && ps.len() == 1
                    && lookup(ps, "hash"@) == Some(hash@)
                    && p@.form is None)),
    {
        proof {
            parameters_sent_by_name(Endpoint::TorrentsPieceHashes { hash });
        }
        self.prepare(Endpoint::TorrentsPieceHashes { hash })
    }

    /// Pauses torrents.
    pub fn torrents_pause(&self, hashes: Vec<String>) -> (r: Result<PreparedRequest, ClientError>)
        ensures
            self.prepared_spec(Endpoint::TorrentsPause { hashes }, r),
            r matches Ok(p) ==> (url_join_result(self.host@, "api/v2/torrents/pause"@) == Ok::<Seq<char>, Seq<char>>(p@.url)
                && p@.method == HttpMethod::Post
                && (p@.form matches Some(ps)
                    && ps.len() == 1
                    && lookup(ps, "hashes"@) == Some(list_text(hashes, "|"@))
                    && p@.query is None)),
    {
        proof {
            parameters_sent_by_name(Endpoint::TorrentsPause { hashes });
        }
        self.prepare(Endpoint::TorrentsPause { hashes })
    }

    /// Adds trackers to a torrent.
    pub fn torrents_add_trackers(&self, hash: String, urls: Vec<String>) -> (r: Result<PreparedRequest, ClientError>)
        ensures
            self.prepared_spec(Endpoint::TorrentsAddTrackers { hash, urls }, r),
            r matches Ok(p) ==> (url_join_result(self.host@, "api/v2/torrents/addTrackers"@) == Ok::<Seq<char>, Seq<char>>(p@.url)
                && p@.method == HttpMethod::Post
                && (p@.form matches Some(ps)
                    && ps.len() == 2
                    && lookup(ps, "hash"@) == Some(hash@)
                    && lookup(ps, "urls"@) == Some(list_text(urls, "\n"@))
                    && p@.query is None)),
    {
        proof {
            parameters_sent_by_name(Endpoint::TorrentsAddTrackers { hash, urls });
        }
        self.prepare(Endpoint::TorrentsAddTrackers { hash, urls })
    }

    /// Replaces a tracker URL of a torrent.
    pub fn torrents_edit_tracker(&self, hash: String, orig_url: String, new_url: String) -> (r: Result<PreparedRequest, ClientError>)
        ensures
            self.prepared_spec(Endpoint::TorrentsEditTracker { hash, orig_url, new_url }, r),
            r matches Ok(p) ==> (url_join_result(self.host@, "api/v2/torrents/editTracker"@) == Ok::<Seq<char>, Seq<char>>(p@.url)
                && p@.method == HttpMethod::Post
                && (p@.form matches Some(ps)
                    && ps.len() == 3
                    && lookup(ps, "hash"@) == Some(hash@)
                    && lookup(ps, "origUrl"@) == Some(orig_url@)
                    && lookup(ps, "newUrl"@) == Some(new_url@)
                    && p@.query is None)),
    {
        proof {
            parameters_sent_by_name(Endpoint::TorrentsEditTracker { hash, orig_url, new_url });
        }
        self.prepare(Endpoint::TorrentsEditTracker { hash, orig_url, new_url })
    }

    /// Removes trackers from a torrent.
    pub fn torrents_remove_trackers(&self, hash: String, urls: Vec<String>) -> (r: Result<PreparedRequest, ClientError>)
        ensures
            self.prepared_spec(Endpoint::TorrentsRemoveTrackers { hash, urls }, r),
            r matches Ok(p) ==> (url_join_result(self.host@, "api/v2/torrents/removeTrackers"@) == Ok::<Seq<char>, Seq<char>>(p@.url)
                && p@.method == HttpMethod::Post
                && (p@.form matches Some(ps)
                    && ps.len() == 2
                    && lookup(ps, "hash"@) == Some(hash@)
                    && lookup(ps, "urls"@) == Some(list_text(urls, "|"@))
                    && p@.query is None)),
    {
        proof {
            parameters_sent_by_name(Endpoint::TorrentsRemoveTrackers { hash, urls });
        }
        self.prepare(Endpoint::TorrentsRemoveTrackers { hash, urls })
    }

    /// Adds peers to torrents.
    pub fn torrents_add_peers(&self, hashes: Vec<String>, peers: Vec<String>) -> (r: Result<PreparedRequest, ClientError>)
        ensures
            self.prepared_spec(Endpoint::TorrentsAddPeers { hashes, peers }, r),
            r matches Ok(p) ==> (url_join_result(self.host@, "api/v2/torrents/addPeers"@) == Ok::<Seq<char>, Seq<char>>(p@.url)
                && p@.method == HttpMethod::Post
                && (p@.form matches Some(ps)
                    && ps.len() == 2
                    && lookup(ps, "hashes"@) == Some(list_text(hashes, "|"@))
                    && lookup(ps, "peers"@) == Some(list_text(peers, "|"@))
                    && p@.query is None)),
    {
        proof {
            parameters_sent_by_name(Endpoint::TorrentsAddPeers { hashes, peers });
        }
        self.prepare(Endpoint::TorrentsAddPeers { hashes, peers })
    }

    /// Moves torrents up the queue.
    pub fn torrents_increase_prio(&self, hashes: Vec<String>) -> (r: Result<PreparedRequest, ClientError>)
        ensures
            self.prepared_spec(Endpoint::TorrentsIncreasePrio { hashes }, r),
            r matches Ok(p) ==> (url_join_result(self.host@, "api/v2/torrents/increasePrio"@) == Ok::<Seq<char>, Seq<char>>(p@.url)
                && p@.method == HttpMethod::Post
                && (p@.form matches Some(ps)
                    && ps.len() == 1
                    && lookup(ps, "hashes"@) == Some(list_text(hashes, "|"@))
                    && p@.query is None)),
    {
        proof {
            parameters_sent_by_name(Endpoint::TorrentsIncreasePrio { hashes });
        }
        self.prepare(Endpoint::TorrentsIncreasePrio { hashes })
    }

    /// Moves torrents down the queue.
    pub fn torrents_decrease_prio(&self, hashes: Vec<String>) -> (r: Result<PreparedRequest, ClientError>)
        ensures
            self.prepared_spec(Endpoint::TorrentsDecreasePrio { hashes }, r),
            r matches Ok(p) ==> (url_join_result(self.host@, "api/v2/torrents/decreasePrio"@) == Ok::<Seq<char>, Seq<char>>(p@.url)
                && p@.method == HttpMethod::Post
                && (p@.form matches Some(ps)
                    && ps.len() == 1
                    && lookup(ps, "hashes"@) == Some(list_text(hashes, "|"@))
                    && p@.query is None)),
    {
        proof {
            parameters_sent_by_name(Endpoint::TorrentsDecreasePrio { hashes });
        }
        self.prepare(Endpoint::TorrentsDecreasePrio { hashes })
    }

    /// Moves torrents to the top of the queue.
    pub fn torrents_top_prio(&self, hashes: Vec<String>) -> (r: Result<PreparedRequest, ClientError>)
        ensures
            self.prepared_spec(Endpoint::TorrentsTopPrio { hashes }, r),
            r matches Ok(p) ==> (url_join_result(self.host@, "api/v2/torrents/topPrio"@) == Ok::<Seq<char>, Seq<char>>(p@.url)
                && p@.method == HttpMethod::Post
                && (p@.form matches Some(ps)
                    && ps.len() == 1
                    && lookup(ps, "hashes"@) == Some(list_text(hashes, "|"@))
                    && p@.query is None)),
    {
        proof {
            parameters_sent_by_name(Endpoint::TorrentsTopPrio { hashes });
        }
        self.prepare(Endpoint::TorrentsTopPrio { hashes })
    }

    /// Moves torrents to the bottom of the queue.
    pub fn torrents_bottom_prio(&self, hashes: Vec<String>) -> (r: Result<PreparedRequest, ClientError>)
        ensures
            self.prepared_spec(Endpoint::TorrentsBottomPrio { hashes }, r),
            r matches Ok(p) ==> (url_join_result(self.host@, "api/v2/torrents/bottomPrio"@) == Ok::<Seq<char>, Seq<char>>(p@.url)
                && p@.method == HttpMethod::Post
                && (p@.form matches Some(ps)
                    && ps.len() == 1
                    && lookup(ps, "hashes"@) == Some(list_text(hashes, "|"@))
                    && p@.query is None)),
    {
        proof {
            parameters_sent_by_name(Endpoint::TorrentsBottomPrio { hashes });
        }
        self.prepare(Endpoint::TorrentsBottomPrio { hashes })
    }

    /// The download limits of torrents.
    pub fn torrents_download_limit(&self, hashes: Vec<String>) -> (r: Result<PreparedRequest, ClientError>)
        ensures
            self.prepared_spec(Endpoint::TorrentsDownloadLimit { hashes }, r),
            r matches Ok(p) ==> (url_join_result(self.host@, "api/v2/torrents/downloadLimit"@) == Ok::<Seq<char>, Seq<char>>(p@.url)
                && p@.method == HttpMethod::Post
                && (p@.form matches Some(ps)
                    && ps.len() == 1
                    && lookup(ps, "hashes"@) == Some(list_text(hashes, "|"@))
                    && p@.query is None)),
    {
        proof {
            parameters_sent_by_name(Endpoint::TorrentsDownloadLimit { hashes });
        }
        self.prepare(Endpoint::TorrentsDownloadLimit { hashes })
    }

    /// Sets the download limit of torrents.
    pub fn torrents_set_download_limit(&self, hashes: Vec<String>, limit: u64) -> (r: Result<PreparedRequest, ClientError>)
        ensures
            self.prepared_spec(Endpoint::TorrentsSetDownloadLimit { hashes, limit }, r),
            r matches Ok(p) ==> (url_join_result(self.host@, "api/v2/torrents/setDownloadLimit"@) == Ok::<Seq<char>, Seq<char>>(p@.url)
                && p@.method == HttpMethod::Post
                && (p@.form matches Some(ps)
                    && ps.len() == 2
                    && lookup(ps, "hashes"@) == Some(list_text(hashes, "|"@))
                    && lookup(ps, "limit"@) == Some(decimal(limit as nat))
                    && p@.query is None)),
    {
        proof {
            parameters_sent_by_name(Endpoint::TorrentsSetDownloadLimit { hashes, limit });
        }
        self.prepare(Endpoint::TorrentsSetDownloadLimit { hashes, limit })
    }

    /// Sets the share limits of torrents; `ratio_limit` is the decimal text of the ratio.
    pub fn torrents_set_share_limits(&self, hashes: Vec<String>, ratio_limit: String, seeding_time_limit: i64) -> (r: Result<PreparedRequest, ClientError>)
        ensures
            self.prepared_spec(Endpoint::TorrentsSetShareLimits { hashes, ratio_limit, seeding_time_limit }, r),
            r matches Ok(p) ==> (url_join_result(self.host@, "api/v2/torrents/setShareLimits"@) == Ok::<Seq<char>, Seq<char>>(p@.url)
                && p@.method == HttpMethod::Post
                && (p@.form matches Some(ps)
                    && ps.len() == 3
                    && lookup(ps, "hashes"@) == Some(list_text(hashes, "|"@))
                    && lookup(ps, "ratioLimit"@) == Some(ratio_limit@)
                    && lookup(ps, "seedingTimeLimit"@) == Some(signed_decimal(seeding_time_limit as int))
                    && p@.query is None)),
    {
        proof {
            parameters_sent_by_name(Endpoint::TorrentsSetShareLimits { hashes, ratio_limit, seeding_time_limit });
        }
        self.prepare(Endpoint::TorrentsSetShareLimits { hashes, ratio_limit, seeding_time_limit })
    }

    /// The upload limits of torrents.
    pub fn torrents_upload_limit(&self, hashes: Vec<String>) -> (r: Result<PreparedRequest, ClientError>)
        ensures
            self.prepared_spec(Endpoint::TorrentsUploadLimit { hashes }, r),
            r matches Ok(p) ==> (url_join_result(self.host@, "api/v2/torrents/uploadLimit"@) == Ok::<Seq<char>, Seq<char>>(p@.url)
                && p@.method == HttpMethod::Post
                && (p@.form matches Some(ps)
                    && ps.len() == 1
                    && lookup(ps, "hashes"@) == Some(list_text(hashes, "|"@))
                    && p@.query is None)),
    {
        proof {
            parameters_sent_by_name(Endpoint::TorrentsUploadLimit { hashes });
        }
        self.prepare(Endpoint::TorrentsUploadLimit { hashes })
    }

    /// Sets the upload limit of torrents.
    pub fn torrents_set_upload_limit(&self, hashes: Vec<String>, limit: u64) -> (r: Result<PreparedRequest, ClientError>)
        ensures
            self.prepared_spec(Endpoint::TorrentsSetUploadLimit { hashes, limit }, r),
            r matches Ok(p) ==> (url_join_result(self.host@, "api/v2/torrents/setUploadLimit"@) == Ok::<Seq<char>, Seq<char>>(p@.url)
                && p@.method == HttpMethod::Post
                && (p@.form matches Some(ps)
                    && ps.len() == 2
                    && lookup(ps, "hashes"@) == Some(list_text(hashes, "|"@))
                    && lookup(ps, "limit"@) == Some(decimal(limit as nat))
                    && p@.query is None)),
    {
        proof {
            parameters_sent_by_name(Endpoint::TorrentsSetUploadLimit { hashes, limit });
        }
        self.prepare(Endpoint::TorrentsSetUploadLimit { hashes, limit })
    }

    /// Moves torrents to the save location `location`.
    pub fn torrents_set_location(&self, hashes: Vec<String>, location: String) -> (r: Result<PreparedRequest, ClientError>)
        ensures
            self.prepared_spec(Endpoint::TorrentsSetLocation { hashes, location }, r),
            r matches Ok(p) ==> (url_join_result(self.host@, "api/v2/torrents/setLocation"@) == Ok::<Seq<char>, Seq<char>>(p@.url)
                && p@.method == HttpMethod::Post
                && (p@.form matches Some(ps)
                    && ps.len() == 2
                    && lookup(ps, "hashes"@) == Some(list_text(hashes, "|"@))
                    && lookup(ps, "location"@) == Some(location@)
                    && p@.query is None)),
    {
        proof {
            parameters_sent_by_name(Endpoint::TorrentsSetLocation { hashes, location });
        }
        self.prepare(Endpoint::TorrentsSetLocation { hashes, location })
    }

    /// Renames a torrent.
    pub fn torernts_rename(&self, hash: String, name: String) -> (r: Result<PreparedRequest, ClientError>)
        ensures
            self.prepared_spec(Endpoint::TorrentsRename { hash, name }, r),
            r matches Ok(p) ==> (url_join_result(self.host@, "api/v2/torrents/rename"@) == Ok::<Seq<char>, Seq<char>>(p@.url)
                && p@.method == HttpMethod::Post
                && (p@.form matches Some(ps)
                    && ps.len() == 2
                    && lookup(ps, "hash"@) == Some(hash@)
                    && lookup(ps, "name"@) == Some(name@)
                    && p@.query is None)),
    {
        proof {
            parameters_sent_by_name(Endpoint::TorrentsRename { hash, name });
        }
        self.prepare(Endpoint::TorrentsRename { hash, name })
    }

    /// Sets the category of torrents.
    pub fn torernts_set_category(&self, hashes: Vec<String>, category: String) -> (r: Result<PreparedRequest, ClientError>)
        ensures
            self.prepared_spec(Endpoint::TorrentsSetCategory { hashes, category }, r),
            r matches Ok(p) ==> (url_join_result(self.host@, "api/v2/torrents/setCategory"@) == Ok::<Seq<char>, Seq<char>>(p@.url)
                && p@.method == HttpMethod::Post
                && (p@.form matches Some(ps)
                    && ps.len() == 2
                    && lookup(ps, "hashes"@) == Some(list_text(hashes, "|"@))
                    && lookup(ps, "category"@) == Some(category@)
                    && p@.query is None)),
    {
        proof {
            parameters_sent_by_name(Endpoint::TorrentsSetCategory { hashes, category });
        }
        self.prepare(Endpoint::TorrentsSetCategory { hashes, category })
    }

    /// All categories.
    pub fn torrents_categories(&self) -> (r: Result<PreparedRequest, ClientError>)
        ensures
            self.prepared_spec(Endpoint::TorrentsCategories, r),
            r matches Ok(p) ==> (url_join_result(self.host@, "api/v2/torrents/categories"@) == Ok::<Seq<char>, Seq<char>>(p@.url)
                && p@.method == HttpMethod::Get
                && p@.query is None && p@.form is None && p@.multipart is None),
    {
        proof {
            parameters_sent_by_name(Endpoint::TorrentsCategories);
        }
        self.prepare(Endpoint::TorrentsCategories)
    }

    /// Creates a category with the save path `save_path`.
    pub fn torrents_create_category(&self, category: String, save_path: String) -> (r: Result<PreparedRequest, ClientError>)
        ensures
            self.prepared_spec(Endpoint::TorrentsCreateCategory { category, save_path }, r),
            r matches Ok(p) ==> (url_join_result(self.host@, "api/v2/torrents/createCategory"@) == Ok::<Seq<char>, Seq<char>>(p@.url)
                && p@.method == HttpMethod::Post
                && (p@.form matches Some(ps)
                    && ps.len() == 2
                    && lookup(ps, "category"@) == Some(category@)
                    && lookup(ps, "savePath"@) == Some(save_path@)
                    && p@.query is None)),
    {
        proof {
            parameters_sent_by_name(Endpoint::TorrentsCreateCategory { category, save_path });
        }
        self.prepare(Endpoint::TorrentsCreateCategory { category, save_path })
    }

    /// Changes the save path of a category to `save_path`.
    pub fn torrents_edit_category(&self, category: String, save_path: String) -> (r: Result<PreparedRequest, ClientError>)
        ensures
            self.prepared_spec(Endpoint::TorrentsEditCategory { category, save_path }, r),
            r matches Ok(p) ==> (url_join_result(self.host@, "api/v2/torrents/editCategory"@) == Ok::<Seq<char>, Seq<char>>(p@.url)
                && p@.method == HttpMethod::Post
                && (p@.form matches Some(ps)
                    && ps.len() == 2
                    && lookup(ps, "category"@) == Some(category@)
                    && lookup(ps, "savePath"@) == Some(save_path@)
                    && p@.query is None)),
    {
        proof {
            parameters_sent_by_name(Endpoint::TorrentsEditCategory { category, save_path });
        }
        self.prepare(Endpoint::TorrentsEditCategory { category, save_path })
    }

    /// Removes categories.
    pub fn torrents_remove_categories(&self, categories: Vec<String>) -> (r: Result<PreparedRequest, ClientError>)
        ensures
            self.prepared_spec(Endpoint::TorrentsRemoveCategories { categories }, r),
            r matches Ok(p) ==> (url_join_result(self.host@, "api/v2/torrents/removeCategories"@) == Ok::<Seq<char>, Seq<char>>(p@.url)
                && p@.method == HttpMethod::Post
                && (p@.form matches Some(ps)
                    && ps.len() == 1
                    && lookup(ps, "categories"@) == Some(list_text(categories, "\n"@))
                    && p@.query is None)),
    {
        proof {
            parameters_sent_by_name(Endpoint::TorrentsRemoveCategories { categories });
        }
        self.prepare(Endpoint::TorrentsRemoveCategories { categories })
    }

    /// Adds tags to torrents.
    pub fn torrents_add_tags(&self, hashes: Vec<String>, tags: Vec<String>) -> (r: Result<PreparedRequest, ClientError>)
        ensures
            self.prepared_spec(Endpoint::TorrentsAddTags { hashes, tags }, r),
            r matches Ok(p) ==> (url_join_result(self.host@, "api/v2/torrents/addTags"@) == Ok::<Seq<char>, Seq<char>>(p@.url)
                && p@.method == HttpMethod::Post
                && (p@.form matches Some(ps)
                    && ps.len() == 2
                    && lookup(ps, "hashes"@) == Some(list_text(hashes, "|"@))
                    && lookup(ps, "tags"@) == Some(list_text(tags, ","@))
                    && p@.query is None)),
    {
        proof {
            parameters_sent_by_name(Endpoint::TorrentsAddTags { hashes, tags });
        }
        self.prepare(Endpoint::TorrentsAddTags { hashes, tags })
    }

    /// Removes tags from torrents.
    pub fn torrents_remove_tags(&self, hashes: Vec<String>, tags: Vec<String>) -> (r: Result<PreparedRequest, ClientError>)
        ensures
            self.prepared_spec(Endpoint::TorrentsRemoveTags { hashes, tags }, r),
            r matches Ok(p) ==> (url_join_result(self.host@, "api/v2/torrents/removeTags"@) == Ok::<Seq<char>, Seq<char>>(p@.url)
                && p@.method == HttpMethod::Post
                && (p@.form matches Some(ps)
                    && ps.len() == 2
                    && lookup(ps, "hashes"@) == Some(list_text(hashes, "|"@))
                    && lookup(ps, "tags"@) == Some(list_text(tags, ","@))
                    && p@.query is None)),
    {
        proof {
            parameters_sent_by_name(Endpoint::TorrentsRemoveTags { hashes, tags });
        }
        self.prepare(Endpoint::TorrentsRemoveTags { hashes, tags })
    }

    /// All tags.
    pub fn torrents_tags(&self) -> (r: Result<PreparedRequest, ClientError>)
        ensures
            self.prepared_spec(Endpoint::TorrentsTags, r),
            r matches Ok(p) ==> (url_join_result(self.host@, "api/v2/torrents/tags"@) == Ok::<Seq<char>, Seq<char>>(p@.url)
                && p@.method == HttpMethod::Get
                && p@.query is None && p@.form is None && p@.multipart is None),
    {
        proof {
            parameters_sent_by_name(Endpoint::TorrentsTags);
        }
        self.prepare(Endpoint::TorrentsTags)
    }

    /// Creates tags.
    pub fn torrens_create_tags(&self, tags: Vec<String>) -> (r: Result<PreparedRequest, ClientError>)
        ensures
            self.prepared_spec(Endpoint::TorrentsCreateTags { tags }, r),
            r matches Ok(p) ==> (url_join_result(self.host@, "api/v2/torrents/createTags"@) == Ok::<Seq<char>, Seq<char>>(p@.url)
                && p@.method == HttpMethod::Post
                && (p@.form matches Some(ps)
                    && ps.len() == 1
                    && lookup(ps, "tags"@) == Some(list_text(tags, ","@))
                    && p@.query is None)),
    {
        proof {
            parameters_sent_by_name(Endpoint::TorrentsCreateTags { tags });
        }
        self.prepare(Endpoint::TorrentsCreateTags { tags })
    }

    /// Deletes tags.
    pub fn torrents_delete_tags(&self, tags: Vec<String>) -> (r: Result<PreparedRequest, ClientError>)
        ensures
            self.prepared_spec(Endpoint::TorrentsDeleteTags { tags }, r),
            r matches Ok(p) ==> (url_join_result(self.host@, "api/v2/torrents/deleteTags"@) == Ok::<Seq<char>, Seq<char>>(p@.url)
                && p@.method == HttpMethod::Post
                && (p@.form matches Some(ps)
                    && ps.len() == 1
                    && lookup(ps, "tags"@) == Some(list_text(tags, ","@))
                    && p@.query is None)),
    {
        proof {
            parameters_sent_by_name(Endpoint::TorrentsDeleteTags { tags });
        }
        self.prepare(Endpoint::TorrentsDeleteTags { tags })
    }

    /// Turns automatic torrent management on or off.
    pub fn torrents_set_auto_management(&self, hashes: Vec<String>, enable: bool) -> (r: Result<PreparedRequest, ClientError>)
        ensures
            self.prepared_spec(Endpoint::TorrentsSetAutoManagement { hashes, enable }, r),
            r matches Ok(p) ==> (url_join_result(self.host@, "api/v2/torrents/setAutoManagement"@) == Ok::<Seq<char>, Seq<char>>(p@.url)
                && p@.method == HttpMethod::Post
                && (p@.form matches Some(ps)
                    && ps.len() == 2
                    && lookup(ps, "hashes"@) == Some(list_text(hashes, "|"@))
                    && lookup(ps, "enable"@) == Some(bool_text(enable))
                    && p@.query is None)),
    {
        proof {
            parameters_sent_by_name(Endpoint::TorrentsSetAutoManagement { hashes, enable });
        }
        self.prepare(Endpoint::TorrentsSetAutoManagement { hashes, enable })
    }

    /// Switches sequential download of torrents.
    pub fn torrents_toggle_sequential_download(&self, hashes: Vec<String>) -> (r: Result<PreparedRequest, ClientError>)
        ensures
            self.prepared_spec(Endpoint::TorrentsToggleSequentialDownload { hashes }, r),
            r matches Ok(p) ==> (url_join_result(self.host@, "api/v2/torrents/toggleSequentialDownload"@) == Ok::<Seq<char>, Seq<char>>(p@.url)
                && p@.method == HttpMethod::Post
                && (p@.form matches Some(ps)
                    && ps.len() == 1
                    && lookup(ps, "hashes"@) == Some(list_text(hashes, "|"@))
                    && p@.query is None)),
    {
        proof {
            parameters_sent_by_name(Endpoint::TorrentsToggleSequentialDownload { hashes });
        }
        self.prepare(Endpoint::TorrentsToggleSequentialDownload { hashes })
    }

    /// Switches first and last piece priority of torrents.
    pub fn torrents_toggle_first_last_piece_prio(&self, hashes: Vec<String>) -> (r: Result<PreparedRequest, ClientError>)
        ensures
            self.prepared_spec(Endpoint::TorrentsToggleFirstLastPiecePrio { hashes }, r),
            r matches Ok(p) ==> (url_join_result(self.host@, "api/v2/torrents/toggleFirstLastPiecePrio"@) == Ok::<Seq<char>, Seq<char>>(p@.url)
                && p@.method == HttpMethod::Post
                && (p@.form matches Some(ps)
                    && ps.len() == 1
                    && lookup(ps, "hashes"@) == Some(list_text(hashes, "|"@))
                    && p@.query is None)),
    {
        proof {
            parameters_sent_by_name(Endpoint::TorrentsToggleFirstLastPiecePrio { hashes });
        }
        self.prepare(Endpoint::TorrentsToggleFirstLastPiecePrio { hashes })
    }

    /// Turns force start on or off.
    pub fn torrents_set_force_start(&self, hashes: Vec<String>, value: bool) -> (r: Result<PreparedRequest, ClientError>)
        ensures
            self.prepared_spec(Endpoint::TorrentsSetForceStart { hashes, value }, r),
            r matches Ok(p) ==> (url_join_result(self.host@, "api/v2/torrents/setForceStart"@) == Ok::<Seq<char>, Seq<char>>(p@.url)
                && p@.method == HttpMethod::Post
                && (p@.form matches Some(ps)
                    && ps.len() == 2
                    && lookup(ps, "hashes"@) == Some(list_text(hashes, "|"@))
                    && lookup(ps, "value"@) == Some(bool_text(value))
                    && p@.query is None)),
    {
        proof {
            parameters_sent_by_name(Endpoint::TorrentsSetForceStart { hashes, value });
        }
        self.prepare(Endpoint::TorrentsSetForceStart { hashes, value })
    }

    /// Turns super seeding on or off.
    pub fn torrents_set_super_seeding(&self, hashes: Vec<String>, value: bool) -> (r: Result<PreparedRequest, ClientError>)
        ensures
            self.prepared_spec(Endpoint::TorrentsSetSuperSeeding { hashes, value }, r),
            r matches Ok(p) ==> (url_join_result(self.host@, "api/v2/torrents/setSuperSeeding"@) == Ok::<Seq<char>, Seq<char>>(p@.url)
                && p@.method == HttpMethod::Post
                && (p@.form matches Some(ps)
                    && ps.len() == 2
                    && lookup(ps, "hashes"@) == Some(list_text(hashes, "|"@))
                    && lookup(ps, "value"@) == Some(bool_text(value))
                    && p@.query is None)),
    {
        proof {
            parameters_sent_by_name(Endpoint::TorrentsSetSuperSeeding { hashes, value });
        }
        self.prepare(Endpoint::TorrentsSetSuperSeeding { hashes, value })
    }

    /// Renames the file at `old_path` of a torrent to `new_path`.
    pub fn torrents_rename_file(&self, hash: String, old_path: String, new_path: String) -> (r: Result<PreparedRequest, ClientError>)
        ensures
            self.prepared_spec(Endpoint::TorrentsRenameFile { hash, old_path, new_path }, r),
            r matches Ok(p) ==> (url_join_result(self.host@, "api/v2/torrents/renameFile"@) == Ok::<Seq<char>, Seq<char>>(p@.url)
                && p@.method == HttpMethod::Post
                && (p@.form matches Some(ps)
                    && ps.len() == 3
                    && lookup(ps, "hash"@) == Some(hash@)
                    && lookup(ps, "oldPath"@) == Some(old_path@)
                    && lookup(ps, "newPath"@) == Some(new_path@)
                    && p@.query is None)),
    {
        proof {
            parameters_sent_by_name(Endpoint::TorrentsRenameFile { hash, old_path, new_path });
        }
        self.prepare(Endpoint::TorrentsRenameFile { hash, old_path, new_path })
    }

    /// Renames the folder at `old_path` of a torrent to `new_path`.
    pub fn torrents_rename_folder(&self, hash: String, old_path: String, new_path: String) -> (r: Result<PreparedRequest, ClientError>)
        ensures
            self.prepared_spec(Endpoint::TorrentsRenameFolder { hash, old_path, new_path }, r),
            r matches Ok(p) ==> (url_join_result(self.host@, "api/v2/torrents/renameFolder"@) == Ok::<Seq<char>, Seq<char>>(p@.url)
                && p@.method == HttpMethod::Post
                && (p@.form matches Some(ps)
                    && ps.len() == 3
                    && lookup(ps, "hash"@) == Some(hash@)
                    && lookup(ps, "oldPath"@) == Some(old_path@)
                    && lookup(ps, "newPath"@) == Some(new_path@)
                    && p@.query is None)),
    {
        proof {
            parameters_sent_by_name(Endpoint::TorrentsRenameFolder { hash, old_path, new_path });
        }
        self.prepare(Endpoint::TorrentsRenameFolder { hash, old_path, new_path })
    }

    /// Starts a search.
    pub fn search_start(&self, pattern: String, plugins: String, category: String) -> (r: Result<PreparedRequest, ClientError>)
        ensures
            self.prepared_spec(Endpoint::SearchStart { pattern, plugins, category }, r),
            r matches Ok(p) ==> (url_join_result(self.host@, "api/v2/search/start"@) == Ok::<Seq<char>, Seq<char>>(p@.url)
                && p@.method == HttpMethod::Post
                && (p@.form matches Some(ps)
                    && ps.len() == 3
                    && lookup(ps, "pattern"@) == Some(pattern@)
                    && lookup(ps, "plugins"@) == Some(plugins@)
                    && lookup(ps, "category"@) == Some(category@)
                    && p@.query is None)),
    {
        proof {
            parameters_sent_by_name(Endpoint::SearchStart { pattern, plugins, category });
        }
        self.prepare(Endpoint::SearchStart { pattern, plugins, category })
    }

    /// Stops a search.
    pub fn search_stop(&self, id: u64) -> (r: Result<PreparedRequest, ClientError>)
        ensures
            self.prepared_spec(Endpoint::SearchStop { id }, r),
            r matches Ok(p) ==> (url_join_result(self.host@, "api/v2/search/stop"@) == Ok::<Seq<char>, Seq<char>>(p@.url)
                && p@.method == HttpMethod::Post
                && (p@.form matches Some(ps)
                    && ps.len() == 1
                    && lookup(ps, "id"@) == Some(decimal(id as nat))
                    && p@.query is None)),
    {
        proof {
            parameters_sent_by_name(Endpoint::SearchStop { id });
        }
        self.prepare(Endpoint::SearchStop { id })
    }

    /// The status of one search, or of all when `id` is `None`.
    pub fn search_status(&self, id: Option<u64>) -> (r: Result<PreparedRequest, ClientError>)
        ensures
            self.prepared_spec(Endpoint::SearchStatus { id }, r),
            r matches Ok(p) ==> (url_join_result(self.host@, "api/v2/search/status"@) == Ok::<Seq<char>, Seq<char>>(p@.url)
                && p@.method == HttpMethod::Get
                && (p@.query matches Some(ps)
                    && lookup(ps, "id"@) == opt_u64_text(id)
                    && p@.form is None)),
    {
        proof {
            parameters_sent_by_name(Endpoint::SearchStatus { id });
        }
        self.prepare(Endpoint::SearchStatus { id })
    }

    /// The results of a search.
    pub fn search_results(&self, id: u64, limit: Option<i64>, offset: Option<i64>) -> (r: Result<PreparedRequest, ClientError>)
        ensures
            self.prepared_spec(Endpoint::SearchResults { id, limit, offset }, r),
            r matches Ok(p) ==> (url_join_result(self.host@, "api/v2/search/results"@) == Ok::<Seq<char>, Seq<char>>(p@.url)
                && p@.method == HttpMethod::Get
                && (p@.query matches Some(ps)
                    && lookup(ps, "id"@) == Some(decimal(id as nat))
                    && lookup(ps, "limit"@) == opt_i64_text(limit)
                    && lookup(ps, "offset"@) == opt_i64_text(offset)
                    && p@.form is None)),
    {
        proof {
            parameters_sent_by_name(Endpoint::SearchResults { id, limit, offset });
        }
        self.prepare(Endpoint::SearchResults { id, limit, offset })
    }

    /// Adds torrents; the upload must name at least one URL or torrent file,
    /// otherwise `ClientError::InvalidMultipart`.
    pub fn torrents_add(&self, ta: TorrentsAddMultipart) -> (r: Result<PreparedRequest, ClientError>)
        ensures
            !ta.has_content_spec() ==> (r matches Err(ClientError::InvalidMultipart(m))
                && m@ == "no valid multipart"@),
            ta.has_content_spec() ==> self.prepared_spec(Endpoint::TorrentsAdd { mp: ta }, r),
    {
        if !ta.has_content() {
            return Err(ClientError::InvalidMultipart("no valid multipart".to_owned()));
        }
        self.prepare(Endpoint::TorrentsAdd { mp: ta })
    }

    /// Adds torrents from URLs (magnet links or links to torrent files).
    pub fn torrents_add_by_url(&self, urls: &[&str]) -> (r: Result<PreparedRequest, ClientError>)
        ensures
            urls@.len() == 0 ==> (r matches Err(ClientError::InvalidMultipart(m))
                && m@ == "no valid multipart"@),
            urls@.len() > 0 ==> self.request_outcome(
                "api/v2/torrents/add"@,
                HttpMethod::Post,
                None,
                None,
                Some(MultipartView {
                    text: seq![("urls"@, joined(urls@.map_values(|u: &str| u@), "\n"@))],
                    files: Seq::empty(),
                }),
                r,
            ),
    {
        let mut owned: Vec<String> = Vec::new();
        let mut i: usize = 0;
        while i < urls.len()
            invariant
                0 <= i <= urls@.len(),
                views(owned@) == urls@.take(i as int).map_values(|u: &str| u@),
            decreases urls@.len() - i,
        {
            let ghost before = owned@;
            let u = urls[i].to_owned();
            owned.push(u);
            proof {
                assert(views(owned@) =~= views(before).push(urls@[i as int]@));
                assert(urls@.take(i + 1) =~= urls@.take(i as int).push(urls@[i as int]));
                assert(views(owned@) =~= urls@.take(i + 1).map_values(|u: &str| u@));
            }
            i += 1;
        }
        proof {
            assert(urls@.take(urls@.len() as int) =~= urls@);
            assert(files_view(Seq::<(String, Vec<u8>)>::empty()) =~= Seq::empty());
        }
        let ta = TorrentsAddMultipart { urls: owned, torrents: Vec::new() };
        self.torrents_add(ta)
    }

    /// Adds torrents from torrent files, each given by its file name and content,
    /// or `None` where the files could not be read, which gives `ClientError::Other`
    /// with an empty message.
    pub fn torrents_add_by_file(&self, files: Option<Vec<(String, Vec<u8>)>>) -> (r: Result<PreparedRequest, ClientError>)
        ensures
            files is None ==> (r matches Err(ClientError::Other(m)) && m@.len() == 0),
            files matches Some(f) ==> (f@.len() == 0 ==> (r matches Err(ClientError::InvalidMultipart(m))
                && m@ == "no valid multipart"@)),
            files matches Some(f) ==> (f@.len() > 0 ==> self.request_outcome(
                "api/v2/torrents/add"@,
                HttpMethod::Post,
                None,
                None,
                Some(MultipartView { text: Seq::empty(), files: files_view(f@) }),
                r,
            )),
    {
        match files {
            None => Err(ClientError::Other(String::new())),
            Some(f) => {
                let ta = TorrentsAddMultipart { urls: Vec::new(), torrents: f };
                self.torrents_add(ta)
            },
        }
    }
}

} // verus!
