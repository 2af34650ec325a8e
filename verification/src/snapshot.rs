//! Descriptive snapshots of a workload: its environment, mounts and port
//! bindings, and its resource usage figures.
//!
//! A snapshot is a list of key/value entries in which no key occurs twice, so
//! it can be turned into a map without losing an entry.

use vstd::prelude::*;

verus! {

/// One key with its value.
#[derive(Clone, Copy, Debug, PartialEq, Eq)]
pub struct Entry {
    pub key: &'static str,
    pub value: &'static str,
}

impl View for Entry {
    type V = (Seq<char>, Seq<char>);

    open spec fn view(&self) -> (Seq<char>, Seq<char>) {
        (self.key@, self.value@)
    }
}

impl DeepView for Entry {
    type V = (Seq<char>, Seq<char>);

    open spec fn deep_view(&self) -> (Seq<char>, Seq<char>) {
        self@
    }
}

/// A named group of entries.
#[derive(Debug, PartialEq, Eq)]
pub struct Section {
    pub name: &'static str,
    pub entries: Vec<Entry>,
}

impl View for Section {
    type V = (Seq<char>, Seq<(Seq<char>, Seq<char>)>);

    open spec fn view(&self) -> (Seq<char>, Seq<(Seq<char>, Seq<char>)>) {
        (self.name@, self.entries.deep_view())
    }
}

impl DeepView for Section {
    type V = (Seq<char>, Seq<(Seq<char>, Seq<char>)>);

    open spec fn deep_view(&self) -> (Seq<char>, Seq<(Seq<char>, Seq<char>)>) {
        self@
    }
}

/// No two entries of `entries` share a key.
pub open spec fn distinct_keys<V>(entries: Seq<(Seq<char>, V)>) -> bool {
    forall|i: int, j: int| 0 <= i < j < entries.len() ==> entries[i].0 != entries[j].0
}

/// The environment variables of the workload.
pub open spec fn environment_snapshot() -> Seq<(Seq<char>, Seq<char>)> {
    seq![
        ("K3S_TOKEN"@, "RdqNLMXRiRsHJhmxKurR"@),
        ("K3S_KUBECONFIG_OUTPU"@, "/output/kubeconfig.yaml"@),
        ("PATH"@, "/usr/local/sbin:/usr/local/bin:/usr/sbin:/usr/bin:/sbin:/bin:/bin/aux"@),
        ("CRI_CONFIG_FILE"@, "/var/lib/rancher/k3s/agent/etc/crictl.yaml"@),
    ]
}

/// The volume mounts of the workload: mount point, then the host directory.
pub open spec fn mounts_snapshot() -> Seq<(Seq<char>, Seq<char>)> {
    seq![
        (
            "/VAR/LIB/CNI"@,
            "/var/lib/docker/volumes/00f49631b07ccd74de44d3047d5f889395ac871e05b622890b6dd788d34a59f4/_data"@,
        ),
        (
            "/VAR/LIB/KUBELET"@,
            "/var/lib/docker/volumes/bc1b16d39a0e204841695de857122412cfdefd0f672af185b1fa43e635397848/_data"@,
        ),
        (
            "/VAR/LIB/RANCHER/K3S"@,
            "/var/lib/docker/volumes/a78bcb9f7654701e0cfaef4447ef61ced4864e5b93dee7102ec639afb5cf2e1d/_data"@,
        ),
        (
            "/VAR/LOG"@,
            "/var/lib/docker/volumes/f64c2f2cf81cfde89879f2a17924b31bd2f2e6a6a738f7df949bf6bd57102d25/_data"@,
        ),
    ]
}

/// The port bindings of the workload: container port, then the host address.
pub open spec fn port_snapshot() -> Seq<(Seq<char>, Seq<char>)> {
    seq![("6443/tcp"@, "0.0.0.0:42397"@)]
}

/// What `inspect` answers: the three sections, in this order.
pub open spec fn inspect_snapshot() -> Seq<(Seq<char>, Seq<(Seq<char>, Seq<char>)>)> {
    seq![
        ("environments"@, environment_snapshot()),
        ("mounts"@, mounts_snapshot()),
        ("port"@, port_snapshot()),
    ]
}

/// What `stats` answers: the four usage figures, in this order.
pub open spec fn stats_snapshot() -> Seq<(Seq<char>, Seq<char>)> {
    seq![
        ("CPU USAGE"@, "1.98%"@),
        ("MEMORY USAGE"@, "65.8MB"@),
        ("DISK READ/WRITE"@, "5.3MB / 43.7 MB"@),
        ("NETWORK I/O"@, "5.7 kB / 3 kB"@),
    ]
}

fn environment_entries() -> (entries: Vec<Entry>)
    ensures
        entries.deep_view() == environment_snapshot(),
{
    let mut entries: Vec<Entry> = Vec::new();
    entries.push(Entry { key: "K3S_TOKEN", value: "RdqNLMXRiRsHJhmxKurR" });
    entries.push(Entry { key: "K3S_KUBECONFIG_OUTPU", value: "/output/kubeconfig.yaml" });
    entries.push(
        Entry {
            key: "PATH",
            value: "/usr/local/sbin:/usr/local/bin:/usr/sbin:/usr/bin:/sbin:/bin:/bin/aux",
        },
    );
    entries.push(
        Entry { key: "CRI_CONFIG_FILE", value: "/var/lib/rancher/k3s/agent/etc/crictl.yaml" },
    );
    entries
}

fn mount_entries() -> (entries: Vec<Entry>)
    ensures
        entries.deep_view() == mounts_snapshot(),
{
    let mut entries: Vec<Entry> = Vec::new();
    entries.push(
        Entry {
            key: "/VAR/LIB/CNI",
            value: "/var/lib/docker/volumes/00f49631b07ccd74de44d3047d5f889395ac871e05b622890b6dd788d34a59f4/_data",
        },
    );
    entries.push(
        Entry {
            key: "/VAR/LIB/KUBELET",
            value: "/var/lib/docker/volumes/bc1b16d39a0e204841695de857122412cfdefd0f672af185b1fa43e635397848/_data",
        },
    );
    entries.push(
        Entry {
            key: "/VAR/LIB/RANCHER/K3S",
            value: "/var/lib/docker/volumes/a78bcb9f7654701e0cfaef4447ef61ced4864e5b93dee7102ec639afb5cf2e1d/_data",
        },
    );
    entries.push(
        Entry {
            key: "/VAR/LOG",
            value: "/var/lib/docker/volumes/f64c2f2cf81cfde89879f2a17924b31bd2f2e6a6a738f7df949bf6bd57102d25/_data",
        },
    );
    entries
}

fn port_entries() -> (entries: Vec<Entry>)
    ensures
        entries.deep_view() == port_snapshot(),
{
    let mut entries: Vec<Entry> = Vec::new();
    entries.push(Entry { key: "6443/tcp", value: "0.0.0.0:42397" });
    entries
}

/// The environment, mounts and port bindings of workload `id`.
///
/// The answer is a fixed snapshot: it is the same for every workload.
pub fn inspect(id: u64) -> (sections: Vec<Section>)
    ensures
        sections.deep_view() == inspect_snapshot(),
{
    let mut sections: Vec<Section> = Vec::new();
    sections.push(Section { name: "environments", entries: environment_entries() });
    sections.push(Section { name: "mounts", entries: mount_entries() });
    sections.push(Section { name: "port", entries: port_entries() });
    sections
}

/// The resource usage figures of workload `id`.
///
/// The answer is a fixed snapshot: it is the same for every workload.
pub fn stats(id: u64) -> (entries: Vec<Entry>)
    ensures
        entries.deep_view() == stats_snapshot(),
{
    let mut entries: Vec<Entry> = Vec::new();
    entries.push(Entry { key: "CPU USAGE", value: "1.98%" });
    entries.push(Entry { key: "MEMORY USAGE", value: "65.8MB" });
    entries.push(Entry { key: "DISK READ/WRITE", value: "5.3MB / 43.7 MB" });
    entries.push(Entry { key: "NETWORK I/O", value: "5.7 kB / 3 kB" });
    entries
}

/// Every list of a snapshot names each key once: the section names of
/// `inspect`, the entries of each of its sections, and the entries of `stats`.
pub proof fn lemma_snapshot_keys_distinct()
    ensures
        distinct_keys(inspect_snapshot()),
        distinct_keys(environment_snapshot()),
        distinct_keys(mounts_snapshot()),
        distinct_keys(port_snapshot()),
        distinct_keys(stats_snapshot()),
{
    assert(distinct_keys(inspect_snapshot())) by {
        reveal_strlit("environments");
        reveal_strlit("mounts");
        reveal_strlit("port");
        let s = inspect_snapshot();
        assert(s[0].0.len() == 12 && s[1].0.len() == 6 && s[2].0.len() == 4);
    }
    assert(distinct_keys(environment_snapshot())) by {
        reveal_strlit("K3S_TOKEN");
        reveal_strlit("K3S_KUBECONFIG_OUTPU");
        reveal_strlit("PATH");
        reveal_strlit("CRI_CONFIG_FILE");
        let s = environment_snapshot();
        assert(s[0].0.len() == 9 && s[1].0.len() == 20 && s[2].0.len() == 4 && s[3].0.len()
            == 15);
    }
    assert(distinct_keys(mounts_snapshot())) by {
        reveal_strlit("/VAR/LIB/CNI");
        reveal_strlit("/VAR/LIB/KUBELET");
        reveal_strlit("/VAR/LIB/RANCHER/K3S");
        reveal_strlit("/VAR/LOG");
        let s = mounts_snapshot();
        assert(s[0].0.len() == 12 && s[1].0.len() == 16 && s[2].0.len() == 20 && s[3].0.len()
            == 8);
    }
    assert(distinct_keys(stats_snapshot())) by {
        reveal_strlit("CPU USAGE");
        reveal_strlit("MEMORY USAGE");
        reveal_strlit("DISK READ/WRITE");
        reveal_strlit("NETWORK I/O");
        let s = stats_snapshot();
        assert(s[0].0.len() == 9 && s[1].0.len() == 12 && s[2].0.len() == 15 && s[3].0.len()
            == 11);
    }
}

} // verus!
