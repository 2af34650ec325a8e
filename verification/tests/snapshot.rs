use log_relay::snapshot::inspect;
use log_relay::snapshot::stats;
use log_relay::snapshot::Entry;
use std::collections::HashMap;

fn as_map(entries: &[Entry]) -> HashMap<&'static str, &'static str> {
    entries.iter().map(|entry| (entry.key, entry.value)).collect()
}

#[test]
fn inspect_has_three_sections() {
    let sections = inspect(1);
    let names: Vec<&str> = sections.iter().map(|section| section.name).collect();
    assert_eq!(names, vec!["environments", "mounts", "port"]);
    assert_eq!(sections[0].entries.len(), 4);
    assert_eq!(sections[1].entries.len(), 4);
    assert_eq!(sections[2].entries.len(), 1);
}

#[test]
fn inspect_lists_the_environment() {
    let sections = inspect(1);
    let environment = as_map(&sections[0].entries);
    assert_eq!(environment.len(), 4);
    assert_eq!(environment["K3S_TOKEN"], "RdqNLMXRiRsHJhmxKurR");
    assert_eq!(environment["K3S_KUBECONFIG_OUTPU"], "/output/kubeconfig.yaml");
    assert_eq!(
        environment["PATH"],
        "/usr/local/sbin:/usr/local/bin:/usr/sbin:/usr/bin:/sbin:/bin:/bin/aux"
    );
    assert_eq!(environment["CRI_CONFIG_FILE"], "/var/lib/rancher/k3s/agent/etc/crictl.yaml");
}

#[test]
fn inspect_lists_the_mounts() {
    let sections = inspect(1);
    let mounts = as_map(&sections[1].entries);
    assert_eq!(mounts.len(), 4);
    assert_eq!(
        mounts["/VAR/LIB/CNI"],
        "/var/lib/docker/volumes/00f49631b07ccd74de44d3047d5f889395ac871e05b622890b6dd788d34a59f4/_data"
    );
    assert_eq!(
        mounts["/VAR/LIB/KUBELET"],
        "/var/lib/docker/volumes/bc1b16d39a0e204841695de857122412cfdefd0f672af185b1fa43e635397848/_data"
    );
    assert_eq!(
        mounts["/VAR/LIB/RANCHER/K3S"],
        "/var/lib/docker/volumes/a78bcb9f7654701e0cfaef4447ef61ced4864e5b93dee7102ec639afb5cf2e1d/_data"
    );
    assert_eq!(
        mounts["/VAR/LOG"],
        "/var/lib/docker/volumes/f64c2f2cf81cfde89879f2a17924b31bd2f2e6a6a738f7df949bf6bd57102d25/_data"
    );
}

#[test]
fn inspect_lists_the_port() {
    let sections = inspect(1);
    assert_eq!(sections[2].entries, vec![Entry { key: "6443/tcp", value: "0.0.0.0:42397" }]);
}

#[test]
fn stats_lists_the_usage_figures() {
    let entries = stats(1);
    assert_eq!(
        entries,
        vec![
            Entry { key: "CPU USAGE", value: "1.98%" },
            Entry { key: "MEMORY USAGE", value: "65.8MB" },
            Entry { key: "DISK READ/WRITE", value: "5.3MB / 43.7 MB" },
            Entry { key: "NETWORK I/O", value: "5.7 kB / 3 kB" },
        ]
    );
    assert_eq!(as_map(&entries).len(), 4);
}

#[test]
fn snapshots_are_the_same_for_every_workload() {
    assert_eq!(inspect(1), inspect(2));
    assert_eq!(inspect(0), inspect(u64::MAX));
    assert_eq!(stats(1), stats(2));
}
