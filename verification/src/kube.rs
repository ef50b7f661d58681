//! The topology source seen from this side: what is read of the cluster's
//! ingresses and services, and the entries that are made of it.

use crate::address::{spec_parse, Ipv4Address};
use crate::cache::spec_fetched;
use crate::error::Error;
use crate::topology::{spec_entry_views, SourceKind, TopologyEntry, TopologyEntryView};
use vstd::prelude::*;

verus! {

/// The annotation that names the controller in charge of an ingress.
pub const INGRESS_CLASS_ANNOTATION: &'static str = "kubernetes.io/ingress.class";

/// The value of that annotation on the ingresses that are served here.
pub const TRAEFIK_INGRESS_CLASS: &'static str = "traefik";

/// The name under which the controller's service and its namespace are
/// looked for where none is configured.
pub const TRAEFIK_DEFAULT_NAME: &'static str = "traefik";

/// One annotation of an object's metadata.
#[derive(Clone, Debug)]
pub struct Annotation {
    pub key: String,
    pub value: String,
}

/// One rule of an ingress.
#[derive(Clone, Debug)]
pub struct IngressRule {
    pub host: Option<String>,
}

/// The part of an ingress that lists its rules.
#[derive(Clone, Debug)]
pub struct IngressSpec {
    pub rules: Option<Vec<IngressRule>>,
}

/// What is read of an ingress.
#[derive(Clone, Debug)]
pub struct Ingress {
    pub annotations: Option<Vec<Annotation>>,
    pub spec: Option<IngressSpec>,
}

/// The part of a service that holds its address.
#[derive(Clone, Debug)]
pub struct ServiceSpec {
    pub cluster_ip: Option<String>,
}

/// What is read of a service.
#[derive(Clone, Debug)]
pub struct Service {
    pub name: Option<String>,
    pub spec: Option<ServiceSpec>,
}

/// The ingresses of one cluster and the service of the controller that
/// serves them.
#[derive(Clone, Debug)]
pub struct IngressSource {
    pub service: Service,
    pub ingresses: Vec<Ingress>,
}

/// What a list of strings stands for.
pub open spec fn spec_strings(strings: Seq<String>) -> Seq<Seq<char>> {
    strings.map_values(|string: String| string@)
}

/// The value of the first annotation with key `key`.
pub open spec fn spec_annotation(annotations: Seq<Annotation>, key: Seq<char>) -> Option<Seq<char>>
    decreases annotations.len(),
{
    if annotations.len() == 0 {
        None
    } else if annotations[0].key@ == key {
        Some(annotations[0].value@)
    } else {
        spec_annotation(annotations.drop_first(), key)
    }
}

/// Whether an ingress is annotated as one that the controller serves.
pub open spec fn spec_is_managed(ingress: Ingress) -> bool {
    match ingress.annotations {
        Some(annotations) => spec_annotation(annotations@, INGRESS_CLASS_ANNOTATION@) == Some(
            TRAEFIK_INGRESS_CLASS@,
        ),
        None => false,
    }
}

/// The host of a rule, if it names one.
pub open spec fn spec_host_of(rule: IngressRule) -> Option<Seq<char>> {
    match rule.host {
        Some(host) => Some(host@),
        None => None,
    }
}

/// The hosts that the rules name, in the order of the rules.
pub open spec fn spec_rule_hosts(rules: Seq<IngressRule>) -> Seq<Seq<char>> {
    rules.filter_map(|rule: IngressRule| spec_host_of(rule))
}

/// The hosts that an ingress names.
pub open spec fn spec_hosts(ingress: Ingress) -> Seq<Seq<char>> {
    match ingress.spec {
        Some(spec) => match spec.rules {
            Some(rules) => spec_rule_hosts(rules@),
            None => Seq::empty(),
        },
        None => Seq::empty(),
    }
}

/// The hosts of the ingresses that the controller serves: ingress by
/// ingress, and within one ingress rule by rule.
pub open spec fn spec_ingress_names(ingresses: Seq<Ingress>) -> Seq<Seq<char>>
    decreases ingresses.len(),
{
    if ingresses.len() == 0 {
        Seq::empty()
    } else {
        let earlier = spec_ingress_names(ingresses.drop_last());
        if spec_is_managed(ingresses.last()) {
            earlier + spec_hosts(ingresses.last())
        } else {
            earlier
        }
    }
}

/// One entry per host: the host with a dot put behind it as the name, all
/// with the same address and kind.
pub open spec fn spec_entries_for(
    hosts: Seq<Seq<char>>,
    address: Ipv4Address,
    kind: SourceKind,
) -> Seq<TopologyEntryView> {
    Seq::new(
        hosts.len(),
        |i: int| TopologyEntryView { name: hosts[i].push('.'), address, source_kind: kind },
    )
}

/// The address that a service is reached at inside the cluster, as the
/// cluster writes it, if the service has one.
pub open spec fn spec_traefik_addr(service: Service) -> Option<Seq<char>> {
    match service.spec {
        Some(spec) => match spec.cluster_ip {
            Some(text) => Some(text@),
            None => None,
        },
        None => None,
    }
}

/// The address of a service, where the service has one and it is written
/// in dotted decimal.
pub open spec fn spec_service_address(service: Service) -> Option<Ipv4Address> {
    match spec_traefik_addr(service) {
        Some(text) => spec_parse(text),
        None => None,
    }
}

/// Whether the controller of every cluster has an address.
pub open spec fn spec_sources_usable(sources: Seq<IngressSource>) -> bool {
    forall|i: int|
        0 <= i < sources.len() ==> spec_service_address((#[trigger] sources[i]).service) is Some
}

/// The ingress entries of several clusters, cluster by cluster: every host
/// that a controller serves, with the address of that controller.
pub open spec fn spec_get_ingresses(sources: Seq<IngressSource>) -> Seq<TopologyEntryView>
    decreases sources.len(),
{
    if sources.len() == 0 {
        Seq::empty()
    } else {
        spec_get_ingresses(sources.drop_last()) + spec_entries_for(
            spec_ingress_names(sources.last().ingresses@),
            spec_service_address(sources.last().service)->Some_0,
            SourceKind::Ingress,
        )
    }
}

/// The entry of a service: its name with a dot behind it, at its address.
/// A service without a name or without an address in dotted decimal has
/// none.
pub open spec fn spec_service_entry(service: Service) -> Option<TopologyEntryView> {
    match (service.name, spec_service_address(service)) {
        (Some(name), Some(address)) => Some(
            TopologyEntryView { name: name@.push('.'), address, source_kind: SourceKind::Service },
        ),
        _ => None,
    }
}

/// The entries of the services that have one, in the order of the
/// services.
pub open spec fn spec_get_services(services: Seq<Service>) -> Seq<TopologyEntryView> {
    services.filter_map(|service: Service| spec_service_entry(service))
}

/// The value of the first annotation with key `key`.
fn annotation<'a>(annotations: &'a Vec<Annotation>, key: &String) -> (value: Option<&'a String>)
    ensures
        match value {
            Some(text) => spec_annotation(annotations@, key@) == Some(text@),
            None => spec_annotation(annotations@, key@) is None,
        },
{
    let mut i: usize = 0;
    assert(annotations@.skip(0) =~= annotations@);
    while i < annotations.len()
        invariant
            i <= annotations.len(),
            spec_annotation(annotations@, key@) == spec_annotation(
                annotations@.skip(i as int),
                key@,
            ),
        decreases annotations.len() - i,
    {
        proof {
            let rest = annotations@.skip(i as int);
            assert(rest[0] == annotations@[i as int]);
            assert(rest.drop_first() =~= annotations@.skip(i as int + 1));
        }
        if annotations[i].key == *key {
            return Some(&annotations[i].value);
        }
        i += 1;
    }
    assert(annotations@.skip(i as int).len() == 0);
    None
}

/// Whether an ingress is annotated as one that the controller serves.
pub fn is_managed(ingress: &Ingress) -> (managed: bool)
    ensures
        managed == spec_is_managed(*ingress),
{
    match &ingress.annotations {
        Some(annotations) => {
            let key: String = INGRESS_CLASS_ANNOTATION.to_owned();
            let class: String = TRAEFIK_INGRESS_CLASS.to_owned();
            match annotation(annotations, &key) {
                Some(value) => *value == class,
                None => false,
            }
        },
        None => false,
    }
}

/// Puts the hosts that the rules name behind `names`.
fn push_rule_hosts(names: &mut Vec<String>, rules: &Vec<IngressRule>)
    ensures
        spec_strings(final(names)@) == spec_strings(old(names)@) + spec_rule_hosts(rules@),
{
    let ghost before = spec_strings(names@);
    let mut i: usize = 0;
    assert(spec_rule_hosts(rules@.take(0)) =~= Seq::<Seq<char>>::empty());
    assert(before + Seq::<Seq<char>>::empty() =~= before);
    while i < rules.len()
        invariant
            i <= rules.len(),
            spec_strings(names@) == before + spec_rule_hosts(rules@.take(i as int)),
        decreases rules.len() - i,
    {
        proof {
            rules@.lemma_filter_map_take_succ(|rule: IngressRule| spec_host_of(rule), i as int);
        }
        let ghost so_far = names@;
        match &rules[i].host {
            Some(host) => {
                names.push(host.clone());
                assert(spec_strings(names@) =~= spec_strings(so_far).push(host@));
                assert(spec_strings(names@) =~= before + spec_rule_hosts(
                    rules@.take(i as int + 1),
                ));
            },
            None => {},
        }
        i += 1;
    }
    assert(rules@.take(i as int) =~= rules@);
}

/// Lists the hosts of the ingresses that the controller serves: those whose
/// class annotation names it.
pub fn get_ingress_names(ingresses: &Vec<Ingress>) -> (names: Vec<String>)
    ensures
        spec_strings(names@) == spec_ingress_names(ingresses@),
{
    let mut names: Vec<String> = Vec::new();
    let mut i: usize = 0;
    assert(spec_strings(names@) =~= Seq::<Seq<char>>::empty());
    assert(ingresses@.take(0) =~= Seq::<Ingress>::empty());
    while i < ingresses.len()
        invariant
            i <= ingresses.len(),
            spec_strings(names@) == spec_ingress_names(ingresses@.take(i as int)),
        decreases ingresses.len() - i,
    {
        let ingress = &ingresses[i];
        proof {
            let upto = ingresses@.take(i as int + 1);
            assert(upto.drop_last() =~= ingresses@.take(i as int));
            assert(upto.last() == ingresses@[i as int]);
        }
        if is_managed(ingress) {
            match &ingress.spec {
                Some(spec) => match &spec.rules {
                    Some(rules) => {
                        push_rule_hosts(&mut names, rules);
                    },
                    None => {
                        assert(spec_strings(names@) + Seq::<Seq<char>>::empty() =~= spec_strings(
                            names@,
                        ));
                    },
                },
                None => {
                    assert(spec_strings(names@) + Seq::<Seq<char>>::empty() =~= spec_strings(
                        names@,
                    ));
                },
            }
        }
        i += 1;
    }
    assert(ingresses@.take(i as int) =~= ingresses@);
    names
}

/// The fully-qualified form of a host: the host with a dot behind it.
pub fn fqdn(host: &str) -> (name: String)
    ensures
        name@ == host@.push('.'),
{
    let mut name: String = host.to_owned();
    proof {
        reveal_strlit(".");
    }
    name.append(".");
    assert(name@ =~= host@.push('.'));
    name
}

/// Puts one entry per host behind `entries`.
fn push_entries_for(
    entries: &mut Vec<TopologyEntry>,
    hosts: &Vec<String>,
    address: Ipv4Address,
    kind: SourceKind,
)
    ensures
        spec_entry_views(final(entries)@) == spec_entry_views(old(entries)@) + spec_entries_for(
            spec_strings(hosts@),
            address,
            kind,
        ),
{
    let ghost before = spec_entry_views(entries@);
    let ghost wanted = spec_entries_for(spec_strings(hosts@), address, kind);
    let mut i: usize = 0;
    assert(before + wanted.take(0) =~= before);
    while i < hosts.len()
        invariant
            i <= hosts.len(),
            wanted == spec_entries_for(spec_strings(hosts@), address, kind),
            spec_entry_views(entries@) == before + wanted.take(i as int),
        decreases hosts.len() - i,
    {
        let ghost so_far = entries@;
        let entry = TopologyEntry { name: fqdn(hosts[i].as_str()), address, source_kind: kind };
        assert(entry@ == wanted[i as int]);
        entries.push(entry);
        assert(spec_entry_views(entries@) =~= spec_entry_views(so_far).push(entry@));
        assert(wanted.take(i as int + 1) =~= wanted.take(i as int).push(wanted[i as int]));
        assert(spec_entry_views(entries@) =~= before + wanted.take(i as int + 1));
        i += 1;
    }
    assert(wanted.take(i as int) =~= wanted);
}

/// One entry per host: the fully-qualified host as the name, all with the
/// same address and kind.
pub fn entries_for(hosts: &Vec<String>, address: Ipv4Address, kind: SourceKind) -> (entries: Vec<
    TopologyEntry,
>)
    ensures
        spec_entry_views(entries@) == spec_entries_for(spec_strings(hosts@), address, kind),
{
    let mut entries: Vec<TopologyEntry> = Vec::new();
    assert(spec_entry_views(entries@) =~= Seq::<TopologyEntryView>::empty());
    push_entries_for(&mut entries, hosts, address, kind);
    assert(Seq::<TopologyEntryView>::empty() + spec_entries_for(
        spec_strings(hosts@),
        address,
        kind,
    ) =~= spec_entries_for(spec_strings(hosts@), address, kind));
    entries
}

/// The address that a service is reached at inside the cluster, as the
/// cluster writes it.
pub fn get_traefik_addr(service: &Service) -> (address: Option<String>)
    ensures
        match address {
            Some(text) => spec_traefik_addr(*service) == Some(text@),
            None => spec_traefik_addr(*service) is None,
        },
{
    match &service.spec {
        Some(spec) => match &spec.cluster_ip {
            Some(text) => Some(text.clone()),
            None => None,
        },
        None => None,
    }
}

/// The address of a service, where the service has one and it is written
/// in dotted decimal.
pub fn service_address(service: &Service) -> (address: Option<Ipv4Address>)
    ensures
        address == spec_service_address(*service),
{
    match get_traefik_addr(service) {
        Some(text) => Ipv4Address::parse(text.as_str()),
        None => None,
    }
}

/// Maps every host that the controllers serve to the address of its
/// controller, cluster by cluster. Fails where the controller of some
/// cluster has no address in dotted decimal.
pub fn get_ingresses(sources: &Vec<IngressSource>) -> (fetched: Result<Vec<TopologyEntry>, Error>)
    ensures
        match fetched {
            Ok(entries) => spec_sources_usable(sources@) && spec_entry_views(entries@)
                == spec_get_ingresses(sources@),
            Err(error) => !spec_sources_usable(sources@) && error == Error::TopologyRefreshFailed,
        },
{
    let mut entries: Vec<TopologyEntry> = Vec::new();
    let mut i: usize = 0;
    assert(spec_entry_views(entries@) =~= Seq::<TopologyEntryView>::empty());
    assert(sources@.take(0) =~= Seq::<IngressSource>::empty());
    while i < sources.len()
        invariant
            i <= sources.len(),
            spec_sources_usable(sources@.take(i as int)),
            spec_entry_views(entries@) == spec_get_ingresses(sources@.take(i as int)),
        decreases sources.len() - i,
    {
        let source = &sources[i];
        proof {
            let upto = sources@.take(i as int + 1);
            assert(upto.drop_last() =~= sources@.take(i as int));
            assert(upto.last() == sources@[i as int]);
        }
        match service_address(&source.service) {
            Some(address) => {
                let hosts: Vec<String> = get_ingress_names(&source.ingresses);
                push_entries_for(&mut entries, &hosts, address, SourceKind::Ingress);
                proof {
                    let upto = sources@.take(i as int + 1);
                    assert forall|j: int| 0 <= j < upto.len() implies spec_service_address(
                        (#[trigger] upto[j]).service,
                    ) is Some by {
                        if j < i {
                            assert(upto[j] == sources@.take(i as int)[j]);
                        }
                    }
                }
            },
            None => {
                assert(sources@[i as int] == source);
                return Err(Error::TopologyRefreshFailed);
            },
        }
        i += 1;
    }
    assert(sources@.take(i as int) =~= sources@);
    Ok(entries)
}

/// The entry of a service, if it has one.
fn service_entry(service: &Service) -> (entry: Option<TopologyEntry>)
    ensures
        match entry {
            Some(made) => spec_service_entry(*service) == Some(made@),
            None => spec_service_entry(*service) is None,
        },
{
    match &service.name {
        Some(name) => match service_address(service) {
            Some(address) => Some(
                TopologyEntry {
                    name: fqdn(name.as_str()),
                    address,
                    source_kind: SourceKind::Service,
                },
            ),
            None => None,
        },
        None => None,
    }
}

/// Maps every service that has a name and an address in dotted decimal to
/// that address.
pub fn get_services(services: &Vec<Service>) -> (entries: Vec<TopologyEntry>)
    ensures
        spec_entry_views(entries@) == spec_get_services(services@),
{
    let mut entries: Vec<TopologyEntry> = Vec::new();
    let mut i: usize = 0;
    assert(spec_entry_views(entries@) =~= Seq::<TopologyEntryView>::empty());
    assert(spec_get_services(services@.take(0)) =~= Seq::<TopologyEntryView>::empty());
    while i < services.len()
        invariant
            i <= services.len(),
            spec_entry_views(entries@) == spec_get_services(services@.take(i as int)),
        decreases services.len() - i,
    {
        proof {
            services@.lemma_filter_map_take_succ(
                |service: Service| spec_service_entry(service),
                i as int,
            );
        }
        let ghost so_far = entries@;
        match service_entry(&services[i]) {
            Some(entry) => {
                let ghost made = entry@;
                entries.push(entry);
                assert(spec_entry_views(entries@) =~= spec_entry_views(so_far).push(made));
                assert(spec_entry_views(entries@) =~= spec_get_services(
                    services@.take(i as int + 1),
                ));
            },
            None => {},
        }
        i += 1;
    }
    assert(services@.take(i as int) =~= services@);
    entries
}

/// The entries of a whole fetch: the ingress entries of every cluster,
/// then the service entries.
pub open spec fn spec_get_topology(sources: Seq<IngressSource>, services: Seq<Service>) -> Option<
    Seq<TopologyEntryView>,
> {
    if spec_sources_usable(sources) {
        Some(spec_get_ingresses(sources) + spec_get_services(services))
    } else {
        None
    }
}

/// Puts together what one fetch of the topology has read. `None` stands
/// for a fetch that failed.
pub fn get_topology(sources: &Vec<IngressSource>, services: &Vec<Service>) -> (fetched: Option<
    Vec<TopologyEntry>,
>)
    ensures
        spec_fetched(fetched) == spec_get_topology(sources@, services@),
{
    match get_ingresses(sources) {
        Ok(mut entries) => {
            let ghost first = spec_entry_views(entries@);
            let mut more: Vec<TopologyEntry> = get_services(services);
            let ghost second = spec_entry_views(more@);
            entries.append(&mut more);
            assert(spec_entry_views(entries@) =~= first + second);
            Some(entries)
        },
        Err(_) => None,
    }
}

/// The name under which the controller is looked for: the configured one,
/// or the default where none is configured.
pub fn traefik_name(configured: Option<String>) -> (name: String)
    ensures
        name@ == match configured {
            Some(text) => text@,
            None => TRAEFIK_DEFAULT_NAME@,
        },
{
    match configured {
        Some(text) => text,
        None => TRAEFIK_DEFAULT_NAME.to_owned(),
    }
}

} // verus!
