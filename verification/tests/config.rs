use sailboat::config::{Config, ConfigError};

fn str_vec(items: &[&str]) -> Vec<String> {
    items.iter().map(|s| s.to_string()).collect()
}

#[test]
fn no_args_default() {
    let args = str_vec(&["sailboat"]);
    let config = Config::new(args);
    assert_eq!(config.port, 3000)
}

#[test]
fn sets_port_with_long_opt() {
    let args = str_vec(&["sailboat", "--port", "8080"]);
    let config = Config::new(args);
    assert_eq!(config.port, 8080)
}

#[test]
fn try_new_reads_what_new_reads() {
    assert_eq!(Config::try_new(str_vec(&["sailboat"])).unwrap().port, 3000);
    assert_eq!(Config::try_new(str_vec(&["sailboat", "--port", "8080"])).unwrap().port, 8080);
    assert_eq!(Config::try_new(str_vec(&["--port", "+1", "--port", "2"])).unwrap().port, 1);
    assert_eq!(Config::try_new(str_vec(&["sailboat", "--port", "65535"])).unwrap().port, 65535);
}

#[test]
fn try_new_reports_a_missing_value() {
    let r = Config::try_new(str_vec(&["sailboat", "--port"]));
    assert_eq!(r.unwrap_err(), ConfigError::MissingPortValue);
}

#[test]
fn try_new_reports_an_invalid_port() {
    for bad in ["--other", "", "65536", "-1", "80a", "+"] {
        let r = Config::try_new(str_vec(&["sailboat", "--port", bad]));
        assert_eq!(r.unwrap_err(), ConfigError::InvalidPort, "{}", bad);
    }
}

#[test]
fn find_flag_with_value_takes_the_pair_out() {
    let mut args = str_vec(&["a", "--port", "1", "b"]);
    let value = sailboat::config::find_flag_with_value(&mut args, "--port");
    assert_eq!(value, Some("1".to_string()));
    assert_eq!(args, str_vec(&["a", "b"]));
    let mut args = str_vec(&["a", "b"]);
    assert_eq!(sailboat::config::find_flag_with_value(&mut args, "--port"), None);
    assert_eq!(args, str_vec(&["a", "b"]));
}
