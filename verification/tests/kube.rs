use dnsfun::address::Ipv4Address;
use dnsfun::cache::Cache;
use dnsfun::error::Error;
use dnsfun::kube::{
    entries_for, fqdn, get_ingress_names, get_ingresses, get_services, get_topology,
    get_traefik_addr, is_managed, service_address, traefik_name, Annotation, Ingress,
    IngressRule, IngressSource, IngressSpec, Service, ServiceSpec, INGRESS_CLASS_ANNOTATION,
    TRAEFIK_DEFAULT_NAME, TRAEFIK_INGRESS_CLASS,
};
use dnsfun::topology::{SourceKind, TopologySnapshot};

fn annotation(key: &str, value: &str) -> Annotation {
    Annotation { key: key.to_string(), value: value.to_string() }
}

fn rules(hosts: &[Option<&str>]) -> Option<IngressSpec> {
    Some(IngressSpec {
        rules: Some(
            hosts.iter().map(|host| IngressRule { host: host.map(|h| h.to_string()) }).collect(),
        ),
    })
}

fn managed(hosts: &[Option<&str>]) -> Ingress {
    Ingress {
        annotations: Some(vec![
            annotation("app", "web"),
            annotation("kubernetes.io/ingress.class", "traefik"),
        ]),
        spec: rules(hosts),
    }
}

fn service(name: Option<&str>, cluster_ip: Option<&str>) -> Service {
    Service {
        name: name.map(|n| n.to_string()),
        spec: Some(ServiceSpec { cluster_ip: cluster_ip.map(|ip| ip.to_string()) }),
    }
}

#[test]
fn annotation_constants() {
    assert_eq!(INGRESS_CLASS_ANNOTATION, "kubernetes.io/ingress.class");
    assert_eq!(TRAEFIK_INGRESS_CLASS, "traefik");
    assert_eq!(TRAEFIK_DEFAULT_NAME, "traefik");
}

#[test]
fn ingress_is_managed_only_with_the_class_annotation() {
    assert!(is_managed(&managed(&[])));
    assert!(!is_managed(&Ingress { annotations: None, spec: rules(&[Some("a")]) }));
    assert!(!is_managed(&Ingress { annotations: Some(vec![]), spec: None }));
    assert!(!is_managed(&Ingress {
        annotations: Some(vec![annotation("kubernetes.io/ingress.class", "nginx")]),
        spec: None,
    }));
    assert!(!is_managed(&Ingress {
        annotations: Some(vec![annotation("kubernetes.io/ingress.class", "Traefik")]),
        spec: None,
    }));
    assert!(!is_managed(&Ingress {
        annotations: Some(vec![annotation("ingress.class", "traefik")]),
        spec: None,
    }));
    // The first annotation with the key decides.
    assert!(!is_managed(&Ingress {
        annotations: Some(vec![
            annotation("kubernetes.io/ingress.class", "nginx"),
            annotation("kubernetes.io/ingress.class", "traefik"),
        ]),
        spec: None,
    }));
}

#[test]
fn ingress_names_of_managed_ingresses_in_order() {
    let ingresses = vec![
        managed(&[Some("a.example.com"), None, Some("b.example.com")]),
        Ingress {
            annotations: Some(vec![annotation("kubernetes.io/ingress.class", "nginx")]),
            spec: rules(&[Some("skipped.example.com")]),
        },
        Ingress { annotations: None, spec: rules(&[Some("bare.example.com")]) },
        Ingress {
            annotations: Some(vec![annotation("kubernetes.io/ingress.class", "traefik")]),
            spec: None,
        },
        Ingress {
            annotations: Some(vec![annotation("kubernetes.io/ingress.class", "traefik")]),
            spec: Some(IngressSpec { rules: None }),
        },
        managed(&[Some("c.example.com"), Some("a.example.com")]),
    ];
    assert_eq!(
        get_ingress_names(&ingresses),
        vec!["a.example.com", "b.example.com", "c.example.com", "a.example.com"]
    );
    assert_eq!(get_ingress_names(&vec![]), Vec::<String>::new());
}

#[test]
fn fqdn_puts_a_dot_behind() {
    assert_eq!(fqdn("app.example.com"), "app.example.com.");
    assert_eq!(fqdn(""), ".");
    assert_eq!(fqdn("a."), "a..");
}

#[test]
fn entries_for_hosts() {
    let hosts = vec!["a.example.com".to_string(), "b.example.com".to_string()];
    let entries = entries_for(&hosts, Ipv4Address::new(10, 0, 0, 9), SourceKind::Service);
    assert_eq!(entries.len(), 2);
    assert_eq!(entries[0].name, "a.example.com.");
    assert_eq!(entries[1].name, "b.example.com.");
    for entry in &entries {
        assert_eq!(entry.address, Ipv4Address::new(10, 0, 0, 9));
        assert_eq!(entry.source_kind, SourceKind::Service);
    }
    assert!(entries_for(&vec![], Ipv4Address::new(1, 1, 1, 1), SourceKind::Ingress).is_empty());
}

#[test]
fn traefik_address_of_a_service() {
    assert_eq!(
        get_traefik_addr(&service(Some("traefik"), Some("10.43.0.7"))),
        Some("10.43.0.7".to_string())
    );
    assert_eq!(get_traefik_addr(&service(Some("traefik"), Some("None"))), Some("None".to_string()));
    assert_eq!(get_traefik_addr(&service(Some("traefik"), None)), None);
    assert_eq!(get_traefik_addr(&Service { name: None, spec: None }), None);
    assert_eq!(
        service_address(&service(None, Some("10.43.0.7"))),
        Some(Ipv4Address::new(10, 43, 0, 7))
    );
    assert_eq!(service_address(&service(None, Some("None"))), None);
    assert_eq!(service_address(&service(None, None)), None);
}

#[test]
fn ingresses_of_two_clusters() {
    let sources = vec![
        IngressSource {
            service: service(Some("traefik"), Some("10.43.0.7")),
            ingresses: vec![managed(&[Some("app.example.com"), Some("shared.example.com")])],
        },
        IngressSource {
            service: service(Some("traefik"), Some("10.44.0.8")),
            ingresses: vec![managed(&[Some("shared.example.com"), Some("dev.example.com")])],
        },
    ];
    let entries = get_ingresses(&sources).unwrap();
    let seen: Vec<(String, Ipv4Address, SourceKind)> =
        entries.iter().map(|e| (e.name.clone(), e.address, e.source_kind)).collect();
    assert_eq!(
        seen,
        vec![
            ("app.example.com.".to_string(), Ipv4Address::new(10, 43, 0, 7), SourceKind::Ingress),
            ("shared.example.com.".to_string(), Ipv4Address::new(10, 43, 0, 7), SourceKind::Ingress),
            ("shared.example.com.".to_string(), Ipv4Address::new(10, 44, 0, 8), SourceKind::Ingress),
            ("dev.example.com.".to_string(), Ipv4Address::new(10, 44, 0, 8), SourceKind::Ingress),
        ]
    );
    // The earlier cluster keeps a name that both serve.
    let snapshot = TopologySnapshot::new(entries, 0);
    assert_eq!(snapshot.lookup("shared.example.com."), Some(Ipv4Address::new(10, 43, 0, 7)));
    assert_eq!(snapshot.lookup("dev.example.com."), Some(Ipv4Address::new(10, 44, 0, 8)));
    assert_eq!(snapshot.lookup("shared.example.com"), None);
}

#[test]
fn ingresses_fail_without_a_controller_address() {
    let good = IngressSource {
        service: service(Some("traefik"), Some("10.43.0.7")),
        ingresses: vec![managed(&[Some("app.example.com")])],
    };
    for cluster_ip in [None, Some("None"), Some("10.43.0"), Some("010.43.0.7"), Some("")] {
        let bad = IngressSource { service: service(Some("traefik"), cluster_ip), ingresses: vec![] };
        assert_eq!(
            get_ingresses(&vec![good.clone(), bad.clone()]).unwrap_err(),
            Error::TopologyRefreshFailed
        );
        assert_eq!(get_ingresses(&vec![bad.clone()]).unwrap_err(), Error::TopologyRefreshFailed);
        assert!(get_topology(&vec![bad, good.clone()], &vec![]).is_none());
    }
    assert_eq!(get_ingresses(&vec![]).unwrap().len(), 0);
}

#[test]
fn services_with_a_name_and_an_address() {
    let services = vec![
        service(Some("db"), Some("10.43.1.1")),
        service(None, Some("10.43.1.2")),
        service(Some("headless"), Some("None")),
        service(Some("pending"), None),
        Service { name: Some("bare".to_string()), spec: None },
        service(Some("web"), Some("10.43.1.3")),
    ];
    let entries = get_services(&services);
    let seen: Vec<(String, Ipv4Address, SourceKind)> =
        entries.iter().map(|e| (e.name.clone(), e.address, e.source_kind)).collect();
    assert_eq!(
        seen,
        vec![
            ("db.".to_string(), Ipv4Address::new(10, 43, 1, 1), SourceKind::Service),
            ("web.".to_string(), Ipv4Address::new(10, 43, 1, 3), SourceKind::Service),
        ]
    );
}

#[test]
fn topology_puts_ingresses_before_services() {
    let sources = vec![IngressSource {
        service: service(Some("traefik"), Some("10.43.0.7")),
        ingresses: vec![managed(&[Some("web")])],
    }];
    let services = vec![service(Some("web"), Some("10.43.1.3")), service(Some("db"), Some("10.43.1.1"))];
    let entries = get_topology(&sources, &services).unwrap();
    assert_eq!(entries.len(), 3);
    assert_eq!(entries[0].source_kind, SourceKind::Ingress);
    assert_eq!(entries[1].source_kind, SourceKind::Service);
    let mut cache = Cache::new(TopologySnapshot::empty(0), 5);
    cache.complete_refresh(Some(entries), 10);
    assert_eq!(cache.lookup("web."), Some(Ipv4Address::new(10, 43, 0, 7)));
    assert_eq!(cache.lookup("db."), Some(Ipv4Address::new(10, 43, 1, 1)));
}

#[test]
fn traefik_name_falls_back_to_the_default() {
    assert_eq!(traefik_name(None), "traefik");
    assert_eq!(traefik_name(Some("edge".to_string())), "edge");
    assert_eq!(traefik_name(Some(String::new())), "");
}
