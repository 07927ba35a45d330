use eureka_client::resolver::{ClusterResolver, ClusterTopology, ConfigClusterResolver, DnsClusterResolver, ZoneHosts};
use eureka_client::rest::structures::AmazonMetadataType;
use eureka_client::{BaseConfig, EurekaConfig};

fn zone(name: &str, hosts: &[&str]) -> ZoneHosts {
    ZoneHosts { zone: name.to_string(), hosts: hosts.iter().map(|h| h.to_string()).collect() }
}

fn metadata(zone: &str) -> AmazonMetadataType {
    AmazonMetadataType {
        ami_launch_index: String::new(),
        local_hostname: String::new(),
        availability_zone: zone.to_string(),
        instance_id: String::new(),
        public_ipv4: String::new(),
        public_hostname: String::new(),
        ami_manifest_path: String::new(),
        local_ipv4: String::new(),
        hostname: String::new(),
        ami_id: String::new(),
        instance_type: String::new(),
    }
}

fn dns_resolver(client_zone: &str, prefer: bool) -> DnsClusterResolver {
    let mut config = BaseConfig::default();
    config.eureka.host = "eureka.example.com".to_string();
    config.eureka.port = 8080;
    config.eureka.service_path = "/eureka/v2".to_string();
    config.eureka.prefer_same_zone = prefer;
    config.instance.data_center_info.metadata = Some(metadata(client_zone));
    let mut r = DnsClusterResolver::new(&config);
    r.apply_cluster_refresh(Some(ClusterTopology {
        zones: vec![zone("a", &["a1", "a2"]), zone("b", &["b1"]), zone("c", &["c1"])],
    }));
    r
}

#[test]
fn static_resolver_builds_url_from_host() {
    let r = ConfigClusterResolver::new(&EurekaConfig::default());
    let e = r.resolve_eureka_url(0);
    assert_eq!(e.len(), 1);
    assert_eq!(e[0].url, "http://localhost:8761/eureka");
}

#[test]
fn static_resolver_keeps_configured_order() {
    let mut c = EurekaConfig::default();
    c.service_urls = vec!["http://s1:1/e".to_string(), "http://s2:2/e".to_string()];
    let r = ConfigClusterResolver::new(&c);
    for attempt in 0..3 {
        let urls: Vec<String> = r.resolve_eureka_url(attempt).into_iter().map(|e| e.url).collect();
        assert_eq!(urls, vec!["http://s1:1/e", "http://s2:2/e"]);
    }
}

#[test]
fn ssl_url_uses_https() {
    let mut c = EurekaConfig::default();
    c.ssl = true;
    c.port = 443;
    let urls = ConfigClusterResolver::build_service_urls(&c);
    assert_eq!(urls, vec!["https://localhost:443/eureka"]);
}

#[test]
fn same_zone_hosts_come_first() {
    let r = dns_resolver("b", true);
    let e = r.resolve_eureka_url(0);
    let zones: Vec<String> = e.iter().map(|x| x.zone.clone()).collect();
    assert_eq!(zones, vec!["b", "a", "a", "c"]);
    assert_eq!(e[0].url, "http://b1:8080/eureka/v2");
}

#[test]
fn retries_rotate_other_zones() {
    let r = dns_resolver("b", true);
    let urls: Vec<String> = r.resolve_eureka_url(1).into_iter().map(|x| x.url).collect();
    assert_eq!(
        urls,
        vec!["http://b1:8080/eureka/v2", "http://c1:8080/eureka/v2", "http://a1:8080/eureka/v2", "http://a2:8080/eureka/v2"]
    );
}

#[test]
fn without_preference_all_zones_rotate() {
    let r = dns_resolver("b", false);
    let zones: Vec<String> = r.resolve_eureka_url(2).into_iter().map(|x| x.zone).collect();
    assert_eq!(zones, vec!["c", "a", "a", "b"]);
}

#[test]
fn no_topology_means_no_endpoints() {
    let r = DnsClusterResolver::new(&BaseConfig::default());
    assert!(r.get_current_cluster().is_none());
    assert!(r.resolve_eureka_url(0).is_empty());
}

#[test]
fn failed_refresh_keeps_topology() {
    let mut r = dns_resolver("b", true);
    r.apply_cluster_refresh(None);
    assert_eq!(r.get_current_cluster().as_ref().unwrap().zones.len(), 3);
}

#[test]
fn refresh_lookup_names() {
    let r = dns_resolver("b", true);
    let refresh = r.start_cluster_refresh();
    assert_eq!(refresh.lookup_name, "txt.us-east-1.eureka.example.com");
    assert_eq!(refresh.interval, 300_000);
    assert_eq!(r.resolve_zone_hosts("us-east-1c.eureka.example.com"), "txt.us-east-1c.eureka.example.com");
}

#[test]
fn zone_names_are_first_labels() {
    let r = dns_resolver("b", true);
    let zones = r.get_availability_zones(&vec![
        "us-east-1c.eureka.example.com".to_string(),
        "nodots".to_string(),
        String::new(),
    ]);
    assert_eq!(zones, vec!["us-east-1c", "nodots", ""]);
}

#[test]
fn cluster_hosts_from_answers() {
    let r = dns_resolver("b", true);
    let t = r.resolve_cluster_hosts(vec![
        ("us-east-1a.e.com".to_string(), vec!["h1".to_string()]),
        ("us-east-1b.e.com".to_string(), vec!["h2".to_string(), "h3".to_string()]),
    ]);
    assert_eq!(t.zones.len(), 2);
    assert_eq!(t.zones[0].zone, "us-east-1a");
    assert_eq!(t.zones[1].hosts, vec!["h2", "h3"]);
}

#[test]
fn refresh_answers_replace_or_keep() {
    let mut r = dns_resolver("b", true);
    r.finish_cluster_refresh(None);
    assert_eq!(r.get_current_cluster().as_ref().unwrap().zones.len(), 3);
    r.finish_cluster_refresh(Some(vec![]));
    assert_eq!(r.get_current_cluster().as_ref().unwrap().zones.len(), 3);
    r.finish_cluster_refresh(Some(vec![("b.eureka.example.com".to_string(), vec!["b9".to_string()])]));
    let urls: Vec<String> = r.resolve_eureka_url(0).into_iter().map(|e| e.url).collect();
    assert_eq!(urls, vec!["http://b9:8080/eureka/v2"]);
}
