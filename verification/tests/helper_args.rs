//! The DHCP/DNS helper's exact argument list.

use wifi_connect::config::{Config, Ipv4Address};
use wifi_connect::dnsmasq::{dnsmasq_arguments, ip_string};

fn config() -> Config {
    Config {
        interface: None,
        ssid: "WiFiConnect".to_string(),
        passphrase: None,
        gateway: Ipv4Address::new(192, 168, 42, 1),
        dhcp_range: "192.168.42.2,192.168.42.254".to_string(),
        listening_port: 80,
        activity_timeout: 0,
    }
}

#[test]
fn ip_rendering() {
    assert_eq!(ip_string(&Ipv4Address::new(192, 168, 42, 1)), "192.168.42.1");
    assert_eq!(ip_string(&Ipv4Address::new(0, 0, 0, 0)), "0.0.0.0");
    assert_eq!(ip_string(&Ipv4Address::new(255, 255, 255, 255)), "255.255.255.255");
    assert_eq!(ip_string(&Ipv4Address::new(10, 0, 3, 77)), "10.0.3.77");
}

#[test]
fn exact_argument_list() {
    let args = dnsmasq_arguments(&config(), "wlan0");
    assert_eq!(
        args,
        vec![
            "--address=/#/192.168.42.1".to_string(),
            "--dhcp-range=192.168.42.2,192.168.42.254".to_string(),
            "--dhcp-option=option:router,192.168.42.1".to_string(),
            "--interface=wlan0".to_string(),
            "--keep-in-foreground".to_string(),
            "--bind-interfaces".to_string(),
            "--except-interface=lo".to_string(),
            "--conf-file".to_string(),
            "--no-hosts".to_string(),
        ]
    );
}
