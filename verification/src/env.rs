//! Environments: what is recorded about each one, and how a new one is
//! described from the user's request.
use vstd::prelude::*;

use crate::error::LenvError;
use crate::text::{chars_of, concat2, concat3, owned};

verus! {

/// A host directory made visible inside the container.
#[derive(Debug, PartialEq, Eq)]
pub struct Mount {
    /// The directory on the host.
    pub host: String,
    /// Where it appears inside the container.
    pub container: String,
}

impl View for Mount {
    type V = (Seq<char>, Seq<char>);

    open spec fn view(&self) -> (Seq<char>, Seq<char>) {
        (self.host@, self.container@)
    }
}

/// A managed Linux environment.
#[derive(Debug, PartialEq, Eq)]
pub struct Environment {
    /// The environment's name, chosen by the user.
    pub name: String,
    /// The container runtime that hosts it.
    pub runtime: String,
    /// The container image it was created from.
    pub image: String,
    /// Host directories mounted into it.
    pub mounts: Vec<Mount>,
}

/// The image used when the user names none.
pub open spec fn default_image() -> Seq<char> {
    "ubuntu:latest"@
}

/// The runtime every environment is created with.
pub open spec fn default_runtime() -> Seq<char> {
    "docker"@
}

/// The position of the last `c` in `s`, or -1 when `s` holds none.
pub open spec fn last_index_of(s: Seq<char>, c: char) -> int
    decreases s.len(),
{
    if s.len() == 0 {
        -1
    } else if s.last() == c {
        s.len() - 1
    } else {
        last_index_of(s.drop_last(), c)
    }
}

/// A mount specification `HOST:CONTAINER` cut at its last `:`, when both
/// sides are non-empty.
pub open spec fn mount_split(s: Seq<char>) -> Option<(Seq<char>, Seq<char>)> {
    let k = last_index_of(s, ':');
    if k <= 0 || k >= s.len() - 1 {
        None
    } else {
        Some((s.subrange(0, k), s.subrange(k + 1, s.len() as int)))
    }
}

/// The text of a mount specification: host directory, `:`, container directory.
pub open spec fn mount_text(host: Seq<char>, container: Seq<char>) -> Seq<char> {
    host + ":"@ + container
}

/// The index of the first specification in `specs` that is not a valid mount,
/// or `specs.len()` when all are valid.
pub open spec fn first_bad_mount(specs: Seq<Seq<char>>) -> int
    decreases specs.len(),
{
    if specs.len() == 0 {
        0
    } else if mount_split(specs[0]) is None {
        0
    } else {
        1 + first_bad_mount(specs.drop_first())
    }
}

proof fn lemma_last_index_unique(s: Seq<char>, c: char, k: int)
    requires
        -1 <= k < s.len(),
        k >= 0 ==> s[k] == c,
        forall|j: int| k < j < s.len() ==> s[j] != c,
    ensures
        last_index_of(s, c) == k,
    decreases s.len(),
{
    if s.len() > 0 && s.last() != c {
        lemma_last_index_unique(s.drop_last(), c, k);
    }
}

proof fn lemma_first_bad_mount_unique(specs: Seq<Seq<char>>, k: int)
    requires
        0 <= k <= specs.len(),
        forall|j: int| 0 <= j < k ==> mount_split(#[trigger] specs[j]) is Some,
        k < specs.len() ==> mount_split(specs[k]) is None,
    ensures
        first_bad_mount(specs) == k,
    decreases specs.len(),
{
    if specs.len() > 0 && k > 0 {
        assert(mount_split(specs[0]) is Some);
        assert forall|j: int| 0 <= j < k - 1 implies mount_split(
            #[trigger] specs.drop_first()[j],
        ) is Some by {
            assert(specs.drop_first()[j] == specs[j + 1]);
        }
        lemma_first_bad_mount_unique(specs.drop_first(), k - 1);
    }
}

/// Reads a mount specification `HOST_DIR:CONTAINER_DIR`. It is cut at its
/// last `:`, so a host path may itself hold a `:` (as a Windows drive does);
/// both sides must be non-empty.
pub fn parse_mount(spec: &str) -> (r: Result<Mount, LenvError>)
    ensures
        match r {
            Ok(m) => mount_split(spec@) == Some(m@),
            Err(e) => {
                &&& mount_split(spec@) is None
                &&& e matches LenvError::InvalidMount(t) && t@ == spec@
            },
        },
{
    let v = chars_of(spec);
    let n = v.len();
    let mut k: usize = n;
    while k > 0 && v[k - 1] != ':'
        invariant
            v@ == spec@,
            n == v.len(),
            k <= n,
            forall|j: int| k <= j < n ==> v@[j] != ':',
        decreases k,
    {
        k -= 1;
    }
    proof {
        lemma_last_index_unique(v@, ':', k - 1);
    }
    if k <= 1 || k >= n {
        return Err(LenvError::InvalidMount(owned(spec)));
    }
    let mut host = String::new();
    let mut i: usize = 0;
    while i < k - 1
        invariant
            v@ == spec@,
            1 < k < n,
            n == v.len(),
            i <= k - 1,
            host@ == v@.subrange(0, i as int),
        decreases k - 1 - i,
    {
        crate::text::push_char(&mut host, v[i]);
        assert(v@.subrange(0, i + 1) =~= v@.subrange(0, i as int).push(v@[i as int]));
        i += 1;
    }
    let mut container = String::new();
    let mut j: usize = k;
    while j < n
        invariant
            v@ == spec@,
            1 < k < n,
            n == v.len(),
            k <= j <= n,
            container@ == v@.subrange(k as int, j as int),
        decreases n - j,
    {
        crate::text::push_char(&mut container, v[j]);
        assert(v@.subrange(k as int, j + 1) =~= v@.subrange(k as int, j as int).push(
            v@[j as int],
        ));
        j += 1;
    }
    Ok(Mount { host, container })
}

/// The `HOST:CONTAINER` text of a mount, as handed to `docker run -v`.
pub fn mount_arg(m: &Mount) -> (r: String)
    ensures
        r@ == mount_text(m.host@, m.container@),
{
    concat3(m.host.as_str(), ":", m.container.as_str())
}

/// Writing a mount as `HOST:CONTAINER` and reading it back gives the same
/// mount, whenever both directories are non-empty and the container
/// directory holds no `:`.
pub proof fn lemma_mount_round_trip(host: Seq<char>, container: Seq<char>)
    requires
        host.len() > 0,
        container.len() > 0,
        !container.contains(':'),
    ensures
        mount_split(mount_text(host, container)) == Some((host, container)),
{
    reveal_strlit(":");
    let s = mount_text(host, container);
    let k = host.len() as int;
    assert(s[k] == ':');
    assert forall|j: int| k < j < s.len() implies s[j] != ':' by {
        assert(s[j] == container[j - k - 1]);
    }
    lemma_last_index_unique(s, ':', k);
    assert(s.subrange(0, k) =~= host);
    assert(s.subrange(k + 1, s.len() as int) =~= container);
}

impl Environment {
    /// Describes a new environment from the user's request. The name is
    /// taken as it is, unchecked; each mount
    /// specification is read in order, and the first that is not valid gives
    /// the error. Without an image, `ubuntu:latest` is used; the runtime is
    /// Docker.
    pub fn new(name: &str, image: Option<&str>, mount_specs: &Vec<String>) -> (r: Result<
        Environment,
        LenvError,
    >)
        ensures
            ({
                let specs = mount_specs@.map_values(|s: String| s@);
                let k = first_bad_mount(specs);
                match r {
                    Ok(env) => {
                        &&& k == specs.len()
                        &&& env.name@ == name@
                        &&& env.runtime@ == default_runtime()
                        &&& env.image@ == match image {
                            Some(i) => i@,
                            None => default_image(),
                        }
                        &&& env.mounts.len() == specs.len()
                        &&& forall|i: int|
                            0 <= i < specs.len() ==> mount_split(specs[i]) == Some(
                                #[trigger] env.mounts@[i]@,
                            )
                    },
                    Err(e) => {
                        &&& k < specs.len()
                        &&& e matches LenvError::InvalidMount(t) && t@ == specs[k]
                    },
                }
            }),
    {
        let ghost specs = mount_specs@.map_values(|s: String| s@);
        let mut mounts: Vec<Mount> = Vec::new();
        let mut i: usize = 0;
        while i < mount_specs.len()
            invariant
                specs == mount_specs@.map_values(|s: String| s@),
                i <= mount_specs.len(),
                mounts.len() == i,
                forall|j: int| 0 <= j < i ==> mount_split(#[trigger] specs[j]) == Some(mounts@[j]@),
            decreases mount_specs.len() - i,
        {
            match parse_mount(mount_specs[i].as_str()) {
                Ok(m) => {
                    mounts.push(m);
                },
                Err(e) => {
                    proof {
                        assert forall|j: int| 0 <= j < i implies mount_split(
                            #[trigger] specs[j],
                        ) is Some by {
                            assert(mount_split(specs[j]) == Some(mounts@[j]@));
                        }
                        lemma_first_bad_mount_unique(specs, i as int);
                    }
                    return Err(e);
                },
            }
            i += 1;
        }
        proof {
            assert forall|j: int| 0 <= j < i implies mount_split(#[trigger] specs[j]) is Some by {
                assert(mount_split(specs[j]) == Some(mounts@[j]@));
            }
            lemma_first_bad_mount_unique(specs, i as int);
        }
        let image = match image {
            Some(i) => owned(i),
            None => owned("ubuntu:latest"),
        };
        Ok(Environment { name: owned(name), runtime: owned("docker"), image, mounts })
    }

    /// The name of the file that records the environment `name`.
    pub fn file_name(name: &str) -> (r: String)
        ensures
            r@ == name@ + ".toml"@,
    {
        concat2(name, ".toml")
    }
}

} // verus!
