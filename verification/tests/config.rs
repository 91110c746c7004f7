use docker_clash::clash::{fill_if_none, Config, Tun};

#[derive(Debug, Clone, Default)]
pub struct StructFill {
    redir_port: Option<u16>,
    port: Option<u16>,
    socks_port: Option<u16>,
    num: usize,
}

impl StructFill {
    pub fn fill_if_some(&mut self, other: Self) {
        fill_if_none(&mut self.redir_port, other.redir_port);
        fill_if_none(&mut self.port, other.port);
        fill_if_none(&mut self.socks_port, other.socks_port);
        self.num = other.num;
    }
}

fn config_of(
    port: Option<u16>,
    socks_port: Option<u16>,
    redir_port: Option<u16>,
    mixed_port: Option<u16>,
) -> Config {
    Config { redir_port, port, socks_port, mixed_port, allow_lan: None, tun: Tun { enable: None } }
}

#[test]
fn test_fill() {
    println!("bbbbbbbbb {}", "config");
    let mut old = StructFill { socks_port: Some(1323), num: 0, ..Default::default() };
    assert!(old.redir_port.is_none());

    let new = StructFill { redir_port: Some(532), num: 100, socks_port: Some(13421), port: None };

    old.fill_if_some(new.clone());
    assert_eq!(old.redir_port, new.redir_port);
    assert_ne!(old.socks_port, new.socks_port);
    assert_eq!(old.num, new.num);
    assert_eq!(old.port, new.port);
}

#[test]
fn fill_if_none_keeps_what_is_there() {
    let mut slot = Some(1u16);
    fill_if_none(&mut slot, Some(2));
    assert_eq!(slot, Some(1));
    fill_if_none(&mut slot, None);
    assert_eq!(slot, Some(1));
}

#[test]
fn fill_if_none_takes_what_is_offered() {
    let mut slot: Option<u16> = None;
    fill_if_none(&mut slot, None);
    assert_eq!(slot, None);
    fill_if_none(&mut slot, Some(2));
    assert_eq!(slot, Some(2));
}

#[test]
fn default_config_is_empty() {
    let config = Config::default();
    assert!(config.is_empty());
    assert_eq!(config.redir_port, None);
    assert_eq!(config.port, None);
    assert_eq!(config.socks_port, None);
    assert_eq!(config.mixed_port, None);
    assert_eq!(config.allow_lan, None);
    assert_eq!(config.tun, Tun { enable: None });
    assert_eq!(Tun::default(), Tun { enable: None });
}

#[test]
fn any_field_makes_a_config_non_empty() {
    assert!(!config_of(Some(1), None, None, None).is_empty());
    assert!(!config_of(None, Some(1), None, None).is_empty());
    assert!(!config_of(None, None, Some(1), None).is_empty());
    assert!(!config_of(None, None, None, Some(1)).is_empty());
    assert!(!Config { allow_lan: Some(false), ..Config::default() }.is_empty());
    assert!(!Config { tun: Tun { enable: Some(false) }, ..Config::default() }.is_empty());
}

#[test]
fn command_line_wins_over_file() {
    let mut given = Config {
        redir_port: Some(1),
        port: None,
        socks_port: Some(3),
        mixed_port: None,
        allow_lan: Some(false),
        tun: Tun { enable: Some(false) },
    };
    let file = Config {
        redir_port: Some(7892),
        port: Some(7890),
        socks_port: Some(7891),
        mixed_port: None,
        allow_lan: Some(true),
        tun: Tun { enable: Some(true) },
    };
    given.fill_if_some(file);
    assert_eq!(
        given,
        Config {
            redir_port: Some(1),
            port: Some(7890),
            socks_port: Some(3),
            mixed_port: None,
            allow_lan: Some(false),
            tun: Tun { enable: Some(false) },
        }
    );
}

#[test]
fn file_fills_the_tun_flag_when_absent() {
    let mut given = Config::default();
    given.fill_if_some(Config { tun: Tun { enable: Some(true) }, ..Config::default() });
    assert_eq!(given.tun.enable, Some(true));
    assert!(given.tun_enabled());
}

#[test]
fn filling_twice_changes_nothing_more() {
    let file = config_of(Some(7890), None, Some(7892), None);
    let mut once = config_of(None, Some(5), None, None);
    once.fill_if_some(file);
    let mut twice = once;
    twice.fill_if_some(file);
    assert_eq!(once, twice);
}

#[test]
fn tun_fill_keeps_a_present_flag() {
    let mut tun = Tun { enable: Some(false) };
    tun.fill_if_some(Tun { enable: Some(true) });
    assert_eq!(tun.enable, Some(false));
    let mut tun = Tun { enable: None };
    tun.fill_if_some(Tun { enable: Some(true) });
    assert_eq!(tun.enable, Some(true));
}

#[test]
fn tun_is_off_unless_enabled() {
    assert!(!Config::default().tun_enabled());
    assert!(!Config { tun: Tun { enable: Some(false) }, ..Config::default() }.tun_enabled());
    assert!(Config { tun: Tun { enable: Some(true) }, ..Config::default() }.tun_enabled());
}

#[test]
fn ports_come_in_checking_order() {
    let config = config_of(Some(7890), Some(7891), Some(7892), Some(7893));
    assert_eq!(config.ports(), vec![7890, 7893, 7892, 7891]);
    assert_eq!(config_of(None, Some(7891), None, None).ports(), vec![7891]);
    assert_eq!(Config::default().ports(), Vec::<u16>::new());
}

#[test]
fn port_zero_configures_nothing() {
    let config = config_of(Some(0), Some(7891), Some(0), None);
    assert_eq!(config.ports(), vec![7891]);
    assert_eq!(config.first_port(), Some(7891));
    assert_eq!(config_of(Some(0), None, None, Some(0)).first_port(), None);
}

#[test]
fn first_port_prefers_port_then_mixed_then_socks_then_redir() {
    assert_eq!(config_of(Some(1), Some(2), Some(3), Some(4)).first_port(), Some(1));
    assert_eq!(config_of(None, Some(2), Some(3), Some(4)).first_port(), Some(4));
    assert_eq!(config_of(None, Some(2), Some(3), None).first_port(), Some(2));
    assert_eq!(config_of(None, None, Some(3), None).first_port(), Some(3));
    assert_eq!(Config::default().first_port(), None);
}
