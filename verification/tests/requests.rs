use qbit::client::{check_status, credentials_from_env, response_text, Credential, QbitClient};
use qbit::endpoint::{
    AppSetPreferencesForm, LogMainQuery, SyncTorrentPeersQuery, TorrentsAddMultipart,
    TorrentsInfoQuery,
};
use qbit::error::ClientError;
use qbit::request::{HttpMethod, PreparedRequest};

fn client() -> QbitClient {
    QbitClient::new_with_user_pwd("http://192.168.0.11:8080", "admin", "adminadmin").unwrap()
}

fn pair(n: &str, v: &str) -> (String, String) {
    (n.to_string(), v.to_string())
}

fn strings(v: &[&str]) -> Vec<String> {
    v.iter().map(|s| s.to_string()).collect()
}

fn form_of(p: &PreparedRequest) -> Vec<(String, String)> {
    p.form.clone().expect("a form")
}

#[test]
fn new_client_parses_host_and_keeps_credentials() {
    let c = client();
    assert_eq!(c.host, "http://192.168.0.11:8080/");
    assert_eq!(c.auth.username, "admin");
    assert_eq!(c.auth.password, "adminadmin");
}

#[test]
fn new_client_rejects_relative_host() {
    let r = QbitClient::new_with_user_pwd("192.168.0.11:8080", "admin", "adminadmin");
    match r {
        Err(ClientError::Initialize(m)) => assert_eq!(m, "relative URL without a base"),
        _ => panic!("expected an initialize error"),
    }
}

#[test]
fn new_client_rejects_empty_host() {
    let r = QbitClient::new_with_user_pwd("http://", "a", "b");
    match r {
        Err(ClientError::Initialize(m)) => assert_eq!(m, "empty host"),
        _ => panic!("expected an initialize error"),
    }
}

#[test]
fn env_values_all_present() {
    let r = credentials_from_env(Ok("http://h".into()), Ok("u".into()), Ok("p".into()));
    let (h, u, p) = r.ok().unwrap();
    assert_eq!((h.as_str(), u.as_str(), p.as_str()), ("http://h", "u", "p"));
}

#[test]
fn env_error_names_first_missing_variable() {
    let missing = "environment variable not found".to_string();
    let r = credentials_from_env(Err(missing.clone()), Err(missing.clone()), Ok("p".into()));
    match r {
        Err(ClientError::Initialize(m)) => assert_eq!(m, "`QBIT_HOST` environment variable not found"),
        _ => panic!("expected an initialize error"),
    }
    let r = credentials_from_env(Ok("h".into()), Err(missing.clone()), Err(missing.clone()));
    match r {
        Err(ClientError::Initialize(m)) => {
            assert_eq!(m, "`QBIT_USERNAME` environment variable not found")
        },
        _ => panic!("expected an initialize error"),
    }
    let r = credentials_from_env(Ok("h".into()), Ok("u".into()), Err(missing));
    match r {
        Err(ClientError::Initialize(m)) => {
            assert_eq!(m, "`QBIT_PASSWORD` environment variable not found")
        },
        _ => panic!("expected an initialize error"),
    }
}

#[test]
fn status_success_range() {
    assert!(check_status(200).is_none());
    assert!(check_status(204).is_none());
    assert!(check_status(299).is_none());
    assert!(matches!(check_status(199), Some(ClientError::Status(199))));
    assert!(matches!(check_status(300), Some(ClientError::Status(300))));
    assert!(matches!(check_status(403), Some(ClientError::Status(403))));
    assert!(matches!(check_status(404), Some(ClientError::Status(404))));
}

#[test]
fn response_text_gives_body_or_status() {
    assert_eq!(response_text(200, "Ok.".into()).ok().unwrap(), "Ok.");
    assert!(matches!(response_text(403, "Forbidden".into()), Err(ClientError::Status(403))));
}

#[test]
fn app_version_request() {
    let p = client().app_version().ok().unwrap();
    assert_eq!(p.method, HttpMethod::Get);
    assert_eq!(p.url, "http://192.168.0.11:8080/api/v2/app/version");
    assert_eq!(p.referer, "http://192.168.0.11:8080/");
    assert!(p.query.is_none());
    assert!(p.form.is_none());
    assert!(p.multipart.is_none());
}

#[test]
fn login_sends_credentials_and_drops_session() {
    let call = client().auth_login();
    assert!(call.clears_session);
    let p = call.request.ok().unwrap();
    assert_eq!(p.method, HttpMethod::Post);
    assert_eq!(p.url, "http://192.168.0.11:8080/api/v2/auth/login");
    assert_eq!(form_of(&p), vec![pair("username", "admin"), pair("password", "adminadmin")]);
}

#[test]
fn login_drops_session_even_when_request_fails() {
    let c = QbitClient {
        host: "not a url".to_string(),
        auth: Credential { username: "a".into(), password: "b".into() },
    };
    let call = c.auth_login();
    assert!(call.clears_session);
    assert!(matches!(call.request, Err(ClientError::InvalidUrl(_))));
}

#[test]
fn logout_keeps_session() {
    let p = client().auth_logout().ok().unwrap();
    assert_eq!(p.method, HttpMethod::Post);
    assert_eq!(p.url, "http://192.168.0.11:8080/api/v2/auth/logout");
}

#[test]
fn host_with_path_prefix() {
    let c = QbitClient::new_with_user_pwd("https://example.org/qbit/", "a", "b").unwrap();
    let p = c.transfer_info().ok().unwrap();
    assert_eq!(p.url, "https://example.org/qbit/api/v2/transfer/info");
}

#[test]
fn unjoinable_host_gives_invalid_url() {
    let c = QbitClient {
        host: "not a url".to_string(),
        auth: Credential { username: "a".into(), password: "b".into() },
    };
    match c.app_version() {
        Err(ClientError::InvalidUrl(m)) => assert_eq!(m, "relative URL without a base"),
        _ => panic!("expected an invalid URL error"),
    }
}

#[test]
fn pause_joins_hashes_with_bar() {
    let p = client().torrents_pause(strings(&["aa", "bb", "cc"])).ok().unwrap();
    assert_eq!(p.url, "http://192.168.0.11:8080/api/v2/torrents/pause");
    assert_eq!(form_of(&p), vec![pair("hashes", "aa|bb|cc")]);
}

#[test]
fn pause_with_no_hashes_sends_empty_list() {
    let p = client().torrents_pause(vec![]).ok().unwrap();
    assert_eq!(form_of(&p), vec![pair("hashes", "")]);
}

#[test]
fn limits_written_in_decimal() {
    let p = client().set_download_limit(1048576).ok().unwrap();
    assert_eq!(p.url, "http://192.168.0.11:8080/api/v2/transfer/setDownloadLimit");
    assert_eq!(form_of(&p), vec![pair("limit", "1048576")]);
    let p = client().set_upload_limit(0).ok().unwrap();
    assert_eq!(form_of(&p), vec![pair("limit", "0")]);
    let p = client().torrents_set_upload_limit(strings(&["h"]), u64::MAX).ok().unwrap();
    assert_eq!(form_of(&p), vec![pair("hashes", "h"), pair("limit", "18446744073709551615")]);
}

#[test]
fn share_limits_form() {
    let p = client()
        .torrents_set_share_limits(strings(&["h1", "h2"]), "1.5".into(), -1)
        .ok()
        .unwrap();
    assert_eq!(
        form_of(&p),
        vec![pair("hashes", "h1|h2"), pair("ratioLimit", "1.5"), pair("seedingTimeLimit", "-1")]
    );
    let p = client().torrents_set_share_limits(strings(&["h"]), "-2".into(), i64::MIN).ok().unwrap();
    assert_eq!(form_of(&p)[2], pair("seedingTimeLimit", "-9223372036854775808"));
}

#[test]
fn booleans_written_as_words() {
    let p = client().torrents_set_force_start(strings(&["h"]), true).ok().unwrap();
    assert_eq!(form_of(&p), vec![pair("hashes", "h"), pair("value", "true")]);
    let p = client().torrents_set_auto_management(strings(&["h"]), false).ok().unwrap();
    assert_eq!(form_of(&p), vec![pair("hashes", "h"), pair("enable", "false")]);
}

#[test]
fn list_separators() {
    let p = client()
        .torrents_add_trackers("h".into(), strings(&["udp://a", "udp://b"]))
        .ok()
        .unwrap();
    assert_eq!(form_of(&p), vec![pair("hash", "h"), pair("urls", "udp://a\nudp://b")]);
    let p = client().torrents_remove_trackers("h".into(), strings(&["u1", "u2"])).ok().unwrap();
    assert_eq!(form_of(&p), vec![pair("hash", "h"), pair("urls", "u1|u2")]);
    let p = client().torrents_add_tags(strings(&["h1", "h2"]), strings(&["t1", "t2"])).ok().unwrap();
    assert_eq!(form_of(&p), vec![pair("hashes", "h1|h2"), pair("tags", "t1,t2")]);
    let p = client().torrents_remove_categories(strings(&["c1", "c2"])).ok().unwrap();
    assert_eq!(form_of(&p), vec![pair("categories", "c1\nc2")]);
    let p = client().ban_peers(strings(&["1.2.3.4:5", "6.7.8.9:10"])).ok().unwrap();
    assert_eq!(form_of(&p), vec![pair("peers", "1.2.3.4:5|6.7.8.9:10")]);
}

#[test]
fn edit_tracker_and_rename_file_field_names() {
    let p = client().torrents_edit_tracker("h".into(), "o".into(), "n".into()).ok().unwrap();
    assert_eq!(form_of(&p), vec![pair("hash", "h"), pair("origUrl", "o"), pair("newUrl", "n")]);
    let p = client().torrents_rename_file("h".into(), "a/b".into(), "a/c".into()).ok().unwrap();
    assert_eq!(p.url, "http://192.168.0.11:8080/api/v2/torrents/renameFile");
    assert_eq!(form_of(&p), vec![pair("hash", "h"), pair("oldPath", "a/b"), pair("newPath", "a/c")]);
    let p = client().torrents_create_category("c".into(), "/data".into()).ok().unwrap();
    assert_eq!(form_of(&p), vec![pair("category", "c"), pair("savePath", "/data")]);
}

#[test]
fn set_preferences_sends_json() {
    let f = AppSetPreferencesForm { json: "{\"save_path\":\"/d\"}".into() };
    let p = client().app_set_preferences(f).ok().unwrap();
    assert_eq!(form_of(&p), vec![pair("json", "{\"save_path\":\"/d\"}")]);
}

#[test]
fn query_endpoints_use_get_and_query() {
    let p = client().torrents_properties("abc".into()).ok().unwrap();
    assert_eq!(p.method, HttpMethod::Get);
    assert_eq!(p.url, "http://192.168.0.11:8080/api/v2/torrents/properties");
    assert_eq!(p.query.clone().unwrap(), vec![pair("hash", "abc")]);
    assert!(p.form.is_none());
    let p = client()
        .sync_torrent_peers(SyncTorrentPeersQuery { hash: "abc".into(), rid: Some(7) })
        .ok()
        .unwrap();
    assert_eq!(p.query.clone().unwrap(), vec![pair("hash", "abc"), pair("rid", "7")]);
}

#[test]
fn log_main_query_leaves_out_absent_fields() {
    let q = LogMainQuery {
        normal: Some(true),
        info: None,
        warning: Some(false),
        critical: None,
        last_known_id: Some(-1),
    };
    let p = client().log_main(q).ok().unwrap();
    assert_eq!(p.url, "http://192.168.0.11:8080/api/v2/log/main");
    assert_eq!(
        p.query.clone().unwrap(),
        vec![pair("normal", "true"), pair("warning", "false"), pair("last_known_id", "-1")]
    );
}

#[test]
fn torrents_info_query_order() {
    let q = TorrentsInfoQuery {
        filter: Some("downloading".into()),
        category: None,
        tag: Some("t".into()),
        sort: None,
        reverse: Some(true),
        limit: Some(10),
        offset: None,
        hashes: Some(strings(&["a", "b"])),
    };
    let p = client().torrents_info(q).ok().unwrap();
    assert_eq!(
        p.query.clone().unwrap(),
        vec![
            pair("filter", "downloading"),
            pair("tag", "t"),
            pair("reverse", "true"),
            pair("limit", "10"),
            pair("hashes", "a|b"),
        ]
    );
}

#[test]
fn search_queries() {
    let p = client().search_status(None).ok().unwrap();
    assert_eq!(p.query.clone().unwrap(), Vec::<(String, String)>::new());
    let p = client().search_status(Some(3)).ok().unwrap();
    assert_eq!(p.query.clone().unwrap(), vec![pair("id", "3")]);
    let p = client().search_results(3, Some(50), Some(100)).ok().unwrap();
    assert_eq!(
        p.query.clone().unwrap(),
        vec![pair("id", "3"), pair("limit", "50"), pair("offset", "100")]
    );
    let p = client().search_start("ubuntu".into(), "all".into(), "all".into()).ok().unwrap();
    assert_eq!(p.method, HttpMethod::Post);
    assert_eq!(
        form_of(&p),
        vec![pair("pattern", "ubuntu"), pair("plugins", "all"), pair("category", "all")]
    );
    let p = client().search_stop(3).ok().unwrap();
    assert_eq!(form_of(&p), vec![pair("id", "3")]);
}

#[test]
fn add_by_url_writes_urls_one_per_line() {
    let p = client().torrents_add_by_url(&["magnet:?xt=1", "http://t/x.torrent"]).ok().unwrap();
    assert_eq!(p.method, HttpMethod::Post);
    assert_eq!(p.url, "http://192.168.0.11:8080/api/v2/torrents/add");
    let m = p.multipart.expect("a multipart body");
    assert_eq!(m.text, vec![pair("urls", "magnet:?xt=1\nhttp://t/x.torrent")]);
    assert!(m.files.is_empty());
    assert!(p.form.is_none());
}

#[test]
fn add_by_url_needs_a_url() {
    match client().torrents_add_by_url(&[]) {
        Err(ClientError::InvalidMultipart(m)) => assert_eq!(m, "no valid multipart"),
        _ => panic!("expected an invalid multipart error"),
    }
}

#[test]
fn add_by_file_sends_files() {
    let files = vec![("a.torrent".to_string(), vec![1u8, 2, 3])];
    let p = client().torrents_add_by_file(Some(files)).ok().unwrap();
    let m = p.multipart.expect("a multipart body");
    assert!(m.text.is_empty());
    assert_eq!(m.files, vec![("a.torrent".to_string(), vec![1u8, 2, 3])]);
}

#[test]
fn add_by_file_errors() {
    assert!(matches!(client().torrents_add_by_file(None), Err(ClientError::Other(m)) if m.is_empty()));
    match client().torrents_add_by_file(Some(vec![])) {
        Err(ClientError::InvalidMultipart(m)) => assert_eq!(m, "no valid multipart"),
        _ => panic!("expected an invalid multipart error"),
    }
}

#[test]
fn add_with_urls_and_files() {
    let ta = TorrentsAddMultipart {
        urls: strings(&["magnet:?xt=1"]),
        torrents: vec![("b.torrent".to_string(), vec![9u8])],
    };
    let p = client().torrents_add(ta).ok().unwrap();
    let m = p.multipart.expect("a multipart body");
    assert_eq!(m.text, vec![pair("urls", "magnet:?xt=1")]);
    assert_eq!(m.files.len(), 1);
}

#[test]
fn get_requests_carry_no_body_and_post_requests_no_query() {
    let c = client();
    let gets = vec![
        c.app_version(),
        c.app_webapi_version(),
        c.app_build_info(),
        c.app_preferences(),
        c.app_default_save_path(),
        c.transfer_info(),
        c.speed_limits_mode(),
        c.download_limit(),
        c.upload_limit(),
        c.torrents_categories(),
        c.torrents_tags(),
        c.torrents_files("h".into()),
    ];
    for p in gets {
        let p = p.ok().unwrap();
        assert_eq!(p.method, HttpMethod::Get);
        assert!(p.form.is_none() && p.multipart.is_none());
    }
    let posts = vec![
        c.auth_logout(),
        c.toggle_speed_limits_mode(),
        c.torrents_increase_prio(strings(&["h"])),
        c.torrents_decrease_prio(strings(&["h"])),
        c.torrents_top_prio(strings(&["h"])),
        c.torrents_bottom_prio(strings(&["h"])),
        c.torrents_download_limit(strings(&["h"])),
        c.torrents_upload_limit(strings(&["h"])),
        c.torrens_create_tags(strings(&["t"])),
        c.torrents_delete_tags(strings(&["t"])),
    ];
    for p in posts {
        let p = p.ok().unwrap();
        assert_eq!(p.method, HttpMethod::Post);
        assert!(p.query.is_none());
    }
}

#[test]
fn remaining_paths() {
    let c = client();
    let base = "http://192.168.0.11:8080/api/v2/";
    let cases = vec![
        (c.app_webapi_version(), "app/webapiVersion"),
        (c.app_build_info(), "app/buildInfo"),
        (c.app_preferences(), "app/preferences"),
        (c.app_default_save_path(), "app/defaultSavePath"),
        (c.log_peers(qbit::endpoint::LogPeersQuery { last_known_id: None }), "log/peers"),
        (c.sync_maindata(qbit::endpoint::SyncMaindataQuery { rid: Some(0) }), "sync/maindata"),
        (c.speed_limits_mode(), "transfer/speedLimitsMode"),
        (c.toggle_speed_limits_mode(), "transfer/toggleSpeedLimitsMode"),
        (c.download_limit(), "transfer/downloadLimit"),
        (c.upload_limit(), "transfer/uploadLimit"),
        (c.torrents_trackers("h".into()), "torrents/trackers"),
        (c.torrents_webseeds("h".into()), "torrents/webseeds"),
        (c.torrents_files("h".into()), "torrents/files"),
        (c.torrents_piece_states("h".into()), "torrents/pieceStates"),
        (c.torrents_piece_hashes("h".into()), "torrents/pieceHashes"),
        (c.torrents_add_peers(strings(&["h"]), strings(&["p:1"])), "torrents/addPeers"),
        (c.torrents_set_download_limit(strings(&["h"]), 1), "torrents/setDownloadLimit"),
        (c.torrents_set_location(strings(&["h"]), "/x".into()), "torrents/setLocation"),
        (c.torernts_rename("h".into(), "n".into()), "torrents/rename"),
        (c.torernts_set_category(strings(&["h"]), "c".into()), "torrents/setCategory"),
        (c.torrents_edit_category("c".into(), "/p".into()), "torrents/editCategory"),
        (c.torrents_remove_tags(strings(&["h"]), strings(&["t"])), "torrents/removeTags"),
        (c.torrents_toggle_sequential_download(strings(&["h"])), "torrents/toggleSequentialDownload"),
        (c.torrents_toggle_first_last_piece_prio(strings(&["h"])), "torrents/toggleFirstLastPiecePrio"),
        (c.torrents_set_super_seeding(strings(&["h"]), false), "torrents/setSuperSeeding"),
        (c.torrents_rename_folder("h".into(), "a".into(), "b".into()), "torrents/renameFolder"),
    ];
    for (p, path) in cases {
        assert_eq!(p.ok().unwrap().url, format!("{}{}", base, path));
    }
}

#[test]
fn host_that_is_no_header_value() {
    let c = QbitClient {
        host: "http://example.org/\u{7f}/".to_string(),
        auth: Credential { username: "a".into(), password: "b".into() },
    };
    match c.app_version() {
        Err(ClientError::InvalidHeader(m)) => assert_eq!(m, "failed to parse header value"),
        _ => panic!("expected an invalid header error"),
    }
    let c = QbitClient {
        host: "http://example.org/caf\u{e9}/".to_string(),
        auth: Credential { username: "a".into(), password: "b".into() },
    };
    assert!(c.app_version().is_ok());
}

#[test]
fn client_from_env_values_is_client_of_the_values() {
    let (h, u, p) = credentials_from_env(
        Ok("http://192.168.0.11:8080".into()),
        Ok("admin".into()),
        Ok("adminadmin".into()),
    )
    .ok()
    .unwrap();
    let c = QbitClient::new_with_user_pwd(&h, &u, &p).unwrap();
    let d = client();
    assert_eq!(c.host, d.host);
    assert_eq!(c.auth.username, d.auth.username);
    assert_eq!(c.auth.password, d.auth.password);
}
