use croc::cli;
use croc::cli::{Action, App, CrocCommand, GlobalArgs, SendArgs};
use croc::croc::{
    broadcast_on_local_network, get_files_info, join, new, ClientError, FileInfo, Options,
};
use croc::model;
use croc::peerdiscovery::{
    filter_interfaces, new_peer_discovery, time_is_up, Discovered, IPVersion, Interface,
    PeerDiscovery, Settings,
};
use croc::utils::{
    find_open_ports, get_config_dir, must_create, parse_port, port_text, ConfigHome,
};

fn options() -> Options {
    Options {
        is_sender: false,
        shared_secret: String::from("code"),
        relay_address: String::from(model::DEFAULT_RELAY),
        relay_address6: String::from(model::DEFAULT_RELAY6),
        relay_ports: vec![String::from("9009"), String::from("9010"), String::from("9011")],
        relay_password: String::from(model::DEFAULT_PASSPHRASE),
        zip_folder: false,
        git_ignore: false,
        disable_local: false,
        only_local: false,
        ip: String::new(),
    }
}

fn global() -> GlobalArgs {
    GlobalArgs {
        classic: false,
        remember: false,
        relay: String::from("relay.example"),
        relay6: String::from("relay6.example"),
        pass: String::from("pw"),
        local: false,
        ip: String::new(),
        socks5: String::new(),
        connect: String::new(),
        args: Vec::new(),
    }
}

fn send_args() -> SendArgs {
    SendArgs {
        fnames: vec![String::from("a.txt")],
        zip: false,
        hash: String::from("xxhash"),
        text: None,
        no_local: None,
        no_multi: None,
        git: false,
        port: 9009,
        transfers: 4,
        code: String::new(),
    }
}

fn strings(items: &[&str]) -> Vec<String> {
    items.iter().map(|s| String::from(*s)).collect()
}

#[test]
fn model_constants() {
    assert_eq!(model::TCP_BUFFER_SIZE, 1024 * 64);
    assert_eq!(model::DEFAULT_RELAY, "croc.schollz.com");
    assert_eq!(model::DEFAULT_RELAY6, "croc6.schollz.com");
    assert_eq!(model::DEFAULT_PASSPHRASE, "pass123");
}

#[test]
fn new_client_has_secured_nothing() {
    let client = new(options()).unwrap();
    assert!(!client.step1_channel_secured);
    assert!(client.files_has_finished.is_empty());
    assert_eq!(client.options.shared_secret, "code");
    assert_eq!(client.options.relay_ports.len(), 3);
}

#[test]
fn files_info_is_empty_whatever_is_named() {
    let (files, folders, count) = get_files_info(&strings(&["a", "b/"]), true, true).unwrap();
    assert!(files.is_empty());
    assert!(folders.is_empty());
    assert_eq!(count, 0);
    let (files, folders, count) = get_files_info(&[], false, false).unwrap();
    assert!(files.is_empty() && folders.is_empty() && count == 0);
    let client = new(options()).unwrap();
    let info = FileInfo { _name: String::from("a"), _size: 3 };
    assert_eq!(client.send_collect_files(&[info]), Ok(()));
}

fn flags(client: &mut croc::croc::Client) -> String {
    client.send(Vec::new(), Vec::new(), 0).unwrap()
}

#[test]
fn flags_name_the_relay_and_password_that_are_not_the_default() {
    let mut client = new(options()).unwrap();
    assert_eq!(flags(&mut client), "");
    client.options.relay_address = String::from("my.relay:9009");
    assert_eq!(flags(&mut client), "--relay my.relay:9009 ");
    client.options.relay_password = String::from("hunter2");
    assert_eq!(flags(&mut client), "--relay my.relay:9009 --pass hunter2 ");
    client.options.only_local = true;
    assert_eq!(flags(&mut client), "--pass hunter2 ");
    client.options.relay_address = String::from(model::DEFAULT_RELAY);
    client.options.only_local = false;
    assert_eq!(flags(&mut client), "--pass hunter2 ");
    let info = FileInfo { _name: String::from("a"), _size: 3 };
    assert_eq!(client.send(vec![info], Vec::new(), 2), Ok(String::from("--pass hunter2 ")));
    assert_eq!(client.options.relay_password, "hunter2");
}

#[test]
fn receiver_without_an_address_keeps_its_relays() {
    let mut client = new(options()).unwrap();
    assert_eq!(client.receive(), Ok(()));
    assert_eq!(client.options.relay_address, model::DEFAULT_RELAY);
    assert_eq!(client.options.relay_address6, model::DEFAULT_RELAY6);
    assert_eq!(client.options.shared_secret, "code");
}

#[test]
fn local_receiver_uses_no_relay() {
    let mut client = new(options()).unwrap();
    client.options.only_local = true;
    client.receive().unwrap();
    assert_eq!(client.options.relay_address, "");
    assert_eq!(client.options.relay_address6, "");
}

#[test]
fn receiver_with_an_address_uses_it_as_its_relay() {
    let mut client = new(options()).unwrap();
    client.options.ip = String::from("10.0.0.1:9009");
    client.receive().unwrap();
    assert_eq!(client.options.relay_address, "10.0.0.1:9009");
    assert_eq!(client.options.relay_address6, "");

    let mut client = new(options()).unwrap();
    client.options.ip = String::from("[::1]:9009");
    client.receive().unwrap();
    assert_eq!(client.options.relay_address, "");
    assert_eq!(client.options.relay_address6, "[::1]:9009");

    let mut client = new(options()).unwrap();
    client.options.ip = String::from("[::ffff:10.0.0.1]:9009");
    client.receive().unwrap();
    assert_eq!(client.options.relay_address, "[::ffff:10.0.0.1]:9009");
    assert_eq!(client.options.relay_address6, "[::ffff:10.0.0.1]:9009");

    let mut client = new(options()).unwrap();
    client.options.ip = String::from("localhost");
    client.receive().unwrap();
    assert_eq!(client.options.relay_address, "");
    assert_eq!(client.options.relay_address6, "");
    assert_eq!(client.options.ip, "localhost");
}

#[test]
fn local_relay_searches_from_the_first_relay_port() {
    let client = new(options()).unwrap();
    let scan = client.local_relay_scan().unwrap();
    assert_eq!(scan.start, 9009);
    assert_eq!(scan.want, 3);
    assert_eq!(scan.offset, 0);
    assert!(scan.found.is_empty());
    assert!(!scan.over);
    let mut client = new(options()).unwrap();
    client.options.relay_ports[0] = String::from("http");
    assert_eq!(client.local_relay_scan().err(), Some(ClientError::BadPort));
}

#[test]
fn local_relay_needs_as_many_free_ports_as_relay_ports() {
    let mut client = new(options()).unwrap();
    assert_eq!(client.setup_local_relay(&vec![9009, 9012]), Err(ClientError::NotEnoughPorts));
    assert_eq!(client.options.relay_ports, strings(&["9009", "9010", "9011"]));
    assert_eq!(client.setup_local_relay(&vec![]), Err(ClientError::NotEnoughPorts));
}

#[test]
fn local_relay_takes_the_free_ports_and_shows_all_but_the_first() {
    let mut client = new(options()).unwrap();
    assert_eq!(client.setup_local_relay(&vec![9009, 9012, 9013]), Ok(String::from("9012,9013")));
    assert_eq!(client.options.relay_ports, strings(&["9009", "9012", "9013"]));
    let mut client = new(options()).unwrap();
    client.options.relay_ports = strings(&["1"]);
    assert_eq!(client.setup_local_relay(&vec![65535]), Ok(String::new()));
    assert_eq!(client.options.relay_ports, strings(&["65535"]));
}

#[test]
fn join_puts_the_separator_between_the_parts() {
    let parts = strings(&["a", "bc", "", "d"]);
    assert_eq!(join(&parts, 0, "-"), "a-bc--d");
    assert_eq!(join(&parts, 1, ", "), "bc, , d");
    assert_eq!(join(&parts, 3, "-"), "d");
    assert_eq!(join(&parts, 4, "-"), "");
    assert_eq!(join(&Vec::new(), 0, "-"), "");
}

#[test]
fn sender_announces_itself_for_thirty_seconds_unless_local_only() {
    assert_eq!(broadcast_on_local_network(false), Some(30));
    assert_eq!(broadcast_on_local_network(true), None);
}

#[test]
fn port_text_is_decimal() {
    for port in [0u16, 1, 9, 10, 11, 99, 100, 101, 999, 1000, 9009, 9999, 10000, 10001, 40000, 65535] {
        assert_eq!(port_text(port), port.to_string());
    }
    assert_eq!(port_text(9009), "9009");
    assert_eq!(port_text(0), "0");
    assert_eq!(port_text(65535), "65535");
}

#[test]
fn parse_port_reads_decimal_digits() {
    assert_eq!(parse_port("9009"), Some(9009));
    assert_eq!(parse_port("0"), Some(0));
    assert_eq!(parse_port("65535"), Some(65535));
    assert_eq!(parse_port("+80"), Some(80));
    assert_eq!(parse_port("0080"), Some(80));
    assert_eq!(parse_port("0000000000000000000001"), Some(1));
    for text in ["", "+", "-1", "65536", "99999", "4294967296", "80 ", " 80", "8o", "++1", "1+", "٣"] {
        assert_eq!(parse_port(text), None, "{:?}", text);
    }
    for text in ["9009", "0", "65535", "+80", "0080", "", "+", "-1", "65536", "80 ", "٣", "1e3"] {
        assert_eq!(parse_port(text), text.parse::<u16>().ok(), "{:?}", text);
    }
}

#[test]
fn port_search_gathers_free_ports_until_it_has_enough() {
    let mut scan = find_open_ports(9009, 2);
    assert_eq!(scan.next_port(), Some(9009));
    scan.record(true);
    assert_eq!(scan.next_port(), Some(9010));
    scan.record(false);
    assert_eq!(scan.next_port(), Some(9011));
    scan.record(true);
    scan.record(false);
    assert_eq!(scan.next_port(), None);
    assert!(scan.over);
    assert_eq!(scan.found, vec![9010, 9012]);
    scan.record(false);
    assert_eq!(scan.found, vec![9010, 9012]);
}

#[test]
fn port_search_gives_up_after_two_hundred_ports() {
    let mut scan = find_open_ports(1000, 1);
    let mut looked = 0;
    while let Some(port) = scan.next_port() {
        assert_eq!(port, 1000 + looked);
        scan.record(true);
        looked += 1;
    }
    assert_eq!(looked, 200);
    assert!(scan.found.is_empty());
    assert!(!scan.over);
}

#[test]
fn port_search_ends_at_the_last_port() {
    let mut scan = find_open_ports(65534, 5);
    assert_eq!(scan.next_port(), Some(65534));
    scan.record(false);
    assert_eq!(scan.next_port(), Some(65535));
    scan.record(false);
    assert_eq!(scan.next_port(), None);
    assert_eq!(scan.found, vec![65534, 65535]);
}

#[test]
fn port_search_for_no_ports_looks_at_one() {
    let mut scan = find_open_ports(9009, 0);
    assert_eq!(scan.next_port(), Some(9009));
    scan.record(false);
    assert_eq!(scan.next_port(), None);
    assert_eq!(scan.found, vec![9009]);
}

#[test]
fn command_line_comes_to_an_action() {
    let app = App { global: global(), command: Some(CrocCommand::Send(send_args())) };
    assert_eq!(app.run(), Action::Send);
    let app = App { global: global(), command: None };
    assert_eq!(app.run(), Action::Receive);
    let app = App { global: global(), command: Some(CrocCommand::Relay) };
    assert_eq!(app.run(), Action::Receive);
    let mut classic = global();
    classic.classic = true;
    let app = App { global: classic, command: Some(CrocCommand::Relay) };
    assert_eq!(app.run(), Action::ToggleClassic);
    let mut classic = global();
    classic.classic = true;
    let app = App { global: classic, command: Some(CrocCommand::Send(send_args())) };
    assert_eq!(app.run(), Action::Send);
}

#[test]
fn yes_is_y_or_yes() {
    assert!(cli::confirms("y"));
    assert!(cli::confirms("yes"));
    for no in ["", "n", "no", "ye", "yess", " y", "Y", "YES"] {
        assert!(!cli::confirms(no));
    }
}

#[test]
fn sender_options_name_the_relay_ports() {
    let opts = cli::send(&send_args(), &global(), String::from("secret"));
    assert!(opts.is_sender);
    assert_eq!(opts.shared_secret, "8971-djkasjd");
    assert_eq!(opts.relay_ports, strings(&["9009", "9010", "9011", "9012", "9013"]));
    assert_eq!(opts.relay_address, "relay.example");
    assert_eq!(opts.relay_address6, "relay6.example");
    assert_eq!(opts.relay_password, "secret");
    assert_eq!(opts.ip, "");
    assert!(!opts.disable_local && !opts.only_local && !opts.zip_folder && !opts.git_ignore);
}

#[test]
fn sender_options_fall_back_to_the_default_port_and_transfers() {
    let mut args = send_args();
    args.port = 0;
    args.transfers = 0;
    args.zip = true;
    args.git = true;
    args.no_local = Some(true);
    let mut g = global();
    g.local = true;
    let opts = cli::send(&args, &g, String::new());
    assert_eq!(opts.relay_ports, strings(&["9009", "9010", "9011", "9012", "9013"]));
    assert!(opts.disable_local && opts.only_local && opts.zip_folder && opts.git_ignore);
    args.port = 65534;
    args.transfers = 1;
    args.no_local = Some(false);
    let opts = cli::send(&args, &g, String::new());
    assert_eq!(opts.relay_ports, strings(&["65534", "65535"]));
    assert!(!opts.disable_local);
}

#[test]
fn receiver_options_take_the_secret_from_the_arguments() {
    let mut g = global();
    g.ip = String::from("10.0.0.1");
    let opts = cli::receive(&g, String::from("pw"));
    assert!(!opts.is_sender);
    assert_eq!(opts.shared_secret, "");
    assert_eq!(opts.ip, "10.0.0.1");
    assert_eq!(opts.relay_password, "pw");
    assert!(opts.relay_ports.is_empty());
    g.args = strings(&["1234-a-b-c"]);
    assert_eq!(cli::receive(&g, String::new()).shared_secret, "1234-a-b-c");
    g.args = strings(&["1234", "a"]);
    assert_eq!(cli::receive(&g, String::new()).shared_secret, "");
    g.args = strings(&["1234", "a", "b"]);
    assert_eq!(cli::receive(&g, String::new()).shared_secret, "1234-a-b");
    g.args = strings(&["1234", "a", "b", "c"]);
    assert_eq!(cli::receive(&g, String::new()).shared_secret, "1234-a-b-c");
    g.args = strings(&["1", "2", "3", "4", "5"]);
    assert_eq!(cli::receive(&g, String::new()).shared_secret, "");
}

#[test]
fn default_settings_of_a_search() {
    let s = Settings::default();
    assert_eq!(s.port, 9999);
    assert_eq!(s.multicast_address, "");
    assert!(s.payload.is_empty());
    assert_eq!(s.delay, 1000);
    assert_eq!(s.time_limit, 10);
    assert!(!s.disable_broadcast);
    assert_eq!(s.ip_version, IPVersion::V4);
}

#[test]
fn search_uses_the_first_settings_given() {
    let p = new_peer_discovery(&[]);
    assert_eq!(p.settings.port, 9999);
    assert_eq!(p.settings.time_limit, 10);
    let mut first = Settings::default();
    first.port = 1234;
    first.multicast_address = String::from("ff02::c");
    first.payload = b"hi".to_vec();
    first.ip_version = IPVersion::V6;
    first.time_limit = -1;
    first.delay = 5;
    first.disable_broadcast = true;
    let second = Settings::default();
    let p: PeerDiscovery = new_peer_discovery(&[first, second]);
    let s = p.settings;
    assert_eq!(s.port, 1234);
    assert_eq!(s.multicast_address, "ff02::c");
    assert_eq!(s.payload, b"hi".to_vec());
    assert_eq!(s.ip_version, IPVersion::V6);
    assert_eq!(s.time_limit, -1);
    assert_eq!(s.delay, 5);
    assert!(s.disable_broadcast);
    let d = Discovered { address: String::from("10.0.0.2"), payload: vec![1] };
    assert_eq!(d.address, "10.0.0.2");
    assert_eq!(d.payload, vec![1]);
}

#[test]
fn search_is_over_after_its_limit() {
    assert!(!time_is_up(10, 0));
    assert!(!time_is_up(10, 10_000));
    assert!(time_is_up(10, 10_001));
    assert!(time_is_up(1, u64::MAX));
    assert!(!time_is_up(0, u64::MAX));
    assert!(!time_is_up(-1, u64::MAX));
    assert!(!time_is_up(i64::MAX, u64::MAX));
}

#[test]
fn search_keeps_the_interfaces_it_can_use() {
    let v4 = Interface { index: 1, up: true, loopback: false, multicast: false, has_ipv4: true, has_ipv6: false };
    let v6 = Interface { index: 2, up: false, loopback: false, multicast: true, has_ipv4: false, has_ipv6: true };
    let both = Interface { index: 3, up: false, loopback: true, multicast: false, has_ipv4: true, has_ipv6: true };
    let down = Interface { index: 4, up: false, loopback: false, multicast: false, has_ipv4: true, has_ipv6: true };
    let bare = Interface { index: 5, up: true, loopback: true, multicast: true, has_ipv4: false, has_ipv6: false };
    let all = [v4, v6, both, down, bare];
    assert_eq!(filter_interfaces(&all, true), vec![v4, both]);
    assert_eq!(filter_interfaces(&all, false), vec![v6, both]);
    assert_eq!(filter_interfaces(&[], true), vec![]);
}

#[test]
fn configuration_is_kept_where_the_user_says_first() {
    let named = Some(String::from("/etc/croc"));
    let config = Some(String::from("/home/u/.config"));
    let home = Some(String::from("/home/u"));
    assert_eq!(
        get_config_dir(named.clone(), config.clone(), home.clone()),
        ConfigHome::Named(String::from("/etc/croc"))
    );
    assert_eq!(
        get_config_dir(named.clone(), None, None),
        ConfigHome::Named(String::from("/etc/croc"))
    );
    assert_eq!(
        get_config_dir(None, config.clone(), home.clone()),
        ConfigHome::InConfig(String::from("/home/u/.config"))
    );
    assert_eq!(get_config_dir(None, None, home), ConfigHome::InHome(String::from("/home/u")));
    assert_eq!(get_config_dir(None, None, None), ConfigHome::Nowhere);
}

#[test]
fn configuration_directory_is_made_when_required_and_missing() {
    assert!(must_create(true, false));
    assert!(!must_create(true, true));
    assert!(!must_create(false, false));
    assert!(!must_create(false, true));
}

#[test]
fn password_is_the_text_or_what_the_file_of_that_name_holds() {
    assert_eq!(cli::determine_pass("pass123", None), "pass123");
    assert_eq!(cli::determine_pass("/etc/pw", Some(String::from("s3cret\n"))), "s3cret\n");
    assert_eq!(cli::determine_pass("", Some(String::new())), "");
}
