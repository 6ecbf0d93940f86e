use monitoring_ingest::auth::Credentials;
use monitoring_ingest::bot::{AppConfigurations, BotConfig, ProfileCommand, ProfileRoute};
use monitoring_ingest::cli::{Cli, CliConfig, RunOpt};
use monitoring_ingest::client::{ClientConfig, ClientRequest, Method, SysInfoClient};
use monitoring_ingest::models::InsertDeviceProfile;
use monitoring_ingest::options::CollectorOptions;
use monitoring_ingest::response::{AuthFailure, Failure, Status};
use monitoring_ingest::service::{
    error_log_row, latest_entry_status, profile_row, storage_status, version_text,
};
use monitoring_ingest::timestamp::Timestamp;
use monitoring_ingest::users::parse_allowed_users;
use monitoring_ingest::writer::StorageError;

#[test]
fn collector_options_keep_each_flag() {
    let o = CollectorOptions::new(true, false, true, false, true, false);
    assert_eq!(
        (o.cpu(), o.memory(), o.os(), o.network(), o.filesystem(), o.swap()),
        (true, false, true, false, true, false)
    );
    let o = CollectorOptions::new(false, true, false, true, false, true);
    assert_eq!(
        (o.cpu(), o.memory(), o.os(), o.network(), o.filesystem(), o.swap()),
        (false, true, false, true, false, true)
    );
}

#[test]
fn run_options_give_the_collector_its_sections() {
    let once = RunOpt::Normal {
        cpu: true,
        memory: false,
        os: false,
        network: true,
        filesystem: false,
        swap: true,
    };
    assert_eq!(once.options(), CollectorOptions::new(true, false, false, true, false, true));
    assert_eq!(once.interval(), None);
    let service = RunOpt::Service {
        cpu: false,
        memory: true,
        os: true,
        network: false,
        filesystem: true,
        swap: false,
        sleep_interval: 30,
    };
    assert_eq!(service.options(), CollectorOptions::new(false, true, true, false, true, false));
    assert_eq!(service.interval(), Some(30));
    assert_eq!(Cli::Run(once), Cli::Run(once));
}

#[test]
fn configuring_sets_what_is_given_and_keeps_the_rest() {
    let empty = CliConfig::empty();
    assert_eq!(empty.client, ClientConfig::new("", ""));
    assert_eq!((empty.profile_key.as_str(), empty.profile_id), ("", 0));
    let first =
        empty.configure(Some(String::from("api")), None, Some(4), Some(String::from("http://s")));
    assert_eq!(first.client, ClientConfig::new("api", "http://s"));
    assert_eq!((first.profile_key.as_str(), first.profile_id), ("", 4));
    let second = first.configure(None, Some(String::from("pk")), None, None);
    assert_eq!(second.client, ClientConfig::new("api", "http://s"));
    assert_eq!((second.profile_key.as_str(), second.profile_id), ("pk", 4));
}

#[test]
fn each_operation_sends_its_request() {
    let client = SysInfoClient::new(ClientConfig::new("api", "http://server"));
    assert_eq!(client.config.server_url, "http://server");
    assert_eq!(
        client.get_version(),
        ClientRequest {
            method: Method::Get,
            sub_path: String::new(),
            profile_id: None,
            api_key: String::from("api"),
            profile_key: None,
            read_key: None,
        }
    );
    assert_eq!(
        client.get_profiles("reader"),
        ClientRequest {
            method: Method::Get,
            sub_path: String::from("profiles"),
            profile_id: None,
            api_key: String::from("api"),
            profile_key: None,
            read_key: Some(String::from("reader")),
        }
    );
    assert_eq!(
        client.post_profile(),
        ClientRequest {
            method: Method::Post,
            sub_path: String::from("profiles"),
            profile_id: None,
            api_key: String::from("api"),
            profile_key: None,
            read_key: None,
        }
    );
    assert_eq!(
        client.post_sys_info(12, "pk"),
        ClientRequest {
            method: Method::Post,
            sub_path: String::from("system-info"),
            profile_id: Some(12),
            api_key: String::from("api"),
            profile_key: Some(String::from("pk")),
            read_key: None,
        }
    );
    assert_eq!(
        client.post_error_log(12, "pk"),
        ClientRequest {
            method: Method::Post,
            sub_path: String::from("error"),
            profile_id: Some(12),
            api_key: String::from("api"),
            profile_key: Some(String::from("pk")),
            read_key: None,
        }
    );
}

#[test]
fn the_bot_configuration_gives_back_what_it_was_made_of() {
    let config = BotConfig::new("api", "read", "http://server", &[5, 9]);
    assert_eq!(config.api_token(), "api");
    assert_eq!(config.read_token(), "read");
    assert_eq!(config.server_url(), "http://server");
    assert_eq!(config.allowed_users(), &[5, 9]);
    assert!(config.is_allowed(5));
    assert!(config.is_allowed(9));
    assert!(!config.is_allowed(6));
    assert!(!BotConfig::new("", "", "", &[]).is_allowed(0));
    let app = AppConfigurations {
        bot_token: String::from("t"),
        server_url: String::from("u"),
        api_token: String::from("a"),
        read_token: String::from("r"),
        allowed_users: vec![1],
    };
    let from_app =
        BotConfig::new(&app.api_token, &app.read_token, &app.server_url, &app.allowed_users);
    assert_eq!(from_app.allowed_users(), &[1]);
    assert_eq!(from_app.server_url(), "u");
}

#[test]
fn the_profile_command_is_routed_by_user_and_option() {
    let config = BotConfig::new("api", "read", "http://server", &[5]);
    let command = ProfileCommand;
    assert_eq!(command.name(), "profile");
    assert_eq!(command.dispatch(&config, 5, "create"), ProfileRoute::Create);
    assert_eq!(command.dispatch(&config, 5, "view"), ProfileRoute::View);
    assert_eq!(command.dispatch(&config, 5, "delete"), ProfileRoute::InvalidOption);
    assert_eq!(command.dispatch(&config, 5, "Create"), ProfileRoute::InvalidOption);
    assert_eq!(command.dispatch(&config, 6, "create"), ProfileRoute::NotAllowed);
    assert_eq!(command.dispatch(&config, 6, "nonsense"), ProfileRoute::NotAllowed);
}

#[test]
fn the_version_text_is_name_and_version() {
    assert_eq!(version_text("monitoring-service", "0.1.0"), "monitoring-service v.0.1.0");
    assert_eq!(version_text("", ""), " v.");
}

#[test]
fn reading_snapshots_is_not_implemented_and_asks_for_both_keys() {
    let authenticated: Result<Credentials, Failure> = Ok(Credentials { profile_id: 1 });
    assert_eq!(latest_entry_status(&authenticated), Status::NotImplemented);
    assert_eq!(latest_entry_status(&authenticated).code(), 501);
    let wrong_key: Result<Credentials, Failure> =
        Err(Failure::Auth(AuthFailure::InvalidProfileKey));
    assert_eq!(latest_entry_status(&wrong_key), Status::BadRequest);
    let no_api_key: Result<Credentials, Failure> = Err(Failure::Auth(AuthFailure::MissingApiKey));
    assert_eq!(latest_entry_status(&no_api_key).code(), 400);
    let down: Result<Credentials, Failure> = Err(Failure::StorageUnavailable);
    assert_eq!(latest_entry_status(&down).code(), 500);
}

#[test]
fn small_operations_answer_by_what_the_storage_said() {
    let ok: Result<i32, StorageError> = Ok(4);
    let failed: Result<i32, StorageError> = Err(StorageError::ConstraintViolation);
    assert_eq!(storage_status(&ok), Status::Success);
    assert_eq!(storage_status(&failed), Status::InternalServerError);
    let listed: Result<Vec<u8>, StorageError> = Ok(Vec::new());
    assert_eq!(storage_status(&listed).code(), 200);
}

#[test]
fn the_rows_of_the_small_operations() {
    let entry = error_log_row(Credentials { profile_id: 3 }, "Test", Timestamp::new(9, 9));
    assert_eq!(entry.id_error_log, 0);
    assert_eq!(entry.device_profile_id, 3);
    assert_eq!(entry.message, "Test");
    assert_eq!(entry.create_date, Timestamp::new(9, 9));
    let body = InsertDeviceProfile {
        device_name: String::from("dev1"),
        profile_key: String::from("k1"),
        create_user: 7,
    };
    let profile = profile_row(&body, Timestamp::new(1, 2));
    assert_eq!(profile.id_device_profile, 0);
    assert_eq!(profile.device_name, "dev1");
    assert_eq!(profile.profile_key, "k1");
    assert_eq!(profile.create_user, 7);
    assert_eq!(profile.create_date, Timestamp::new(1, 2));
    assert_eq!((profile.modify_user, profile.modify_date), (None, None));
}

#[test]
fn the_list_of_users_is_numbers_separated_by_semicolons() {
    assert_eq!(parse_allowed_users("5"), Some(vec![5]));
    assert_eq!(parse_allowed_users("5;9;12"), Some(vec![5, 9, 12]));
    assert_eq!(parse_allowed_users("0;007;+3"), Some(vec![0, 7, 3]));
    assert_eq!(parse_allowed_users("18446744073709551615"), Some(vec![u64::MAX]));
    assert_eq!(
        parse_allowed_users("281474976710656;1"),
        Some(vec![281_474_976_710_656, 1])
    );
    for bad in [
        "", ";", "5;", ";5", "5;;9", "a", "5;a", "5 ;9", " 5", "-5", "+", "+;1", "5,9", "0x10",
        "18446744073709551616", "99999999999999999999999", "1;18446744073709551616", "٣", "1.0",
    ] {
        assert_eq!(parse_allowed_users(bad), None, "{:?}", bad);
    }
}

#[test]
fn the_list_of_users_is_read_as_the_standard_library_reads_it() {
    for text in [
        "1", "1;2", "", ";", "+1;+2", "++1", "1;+", "00000000000000000000000000001", "12a", "a12",
        "18446744073709551615;18446744073709551615", "18446744073709551616", "1;2;3;4;5;6;7;8;9;10",
        "+18446744073709551615", "+18446744073709551616", "1\n", "１", "1;２",
    ] {
        let expected: Option<Vec<u64>> =
            text.split(';').map(|part| part.parse::<u64>()).collect::<Result<Vec<u64>, _>>().ok();
        assert_eq!(parse_allowed_users(text), expected, "{:?}", text);
    }
}

#[test]
fn the_bot_reads_its_configuration_from_five_values() {
    let app = AppConfigurations::from_values(
        String::from("token"),
        String::from("http://server"),
        String::from("api"),
        String::from("read"),
        "10;20",
    )
    .expect("the list is a list of users");
    assert_eq!(app.bot_token, "token");
    assert_eq!(app.server_url, "http://server");
    assert_eq!(app.api_token, "api");
    assert_eq!(app.read_token, "read");
    assert_eq!(app.allowed_users, vec![10, 20]);
    assert_eq!(
        AppConfigurations::from_values(
            String::new(),
            String::new(),
            String::new(),
            String::new(),
            "10;twenty"
        ),
        None
    );
}
