//! Resources: the destinations that the tunnel exposes once it is up.

use vstd::prelude::*;

verus! {

/// The identity of a resource: the 128 bits of its UUID.
#[derive(Clone, Copy, Debug, PartialEq, Eq, Structural, Hash, PartialOrd, Ord)]
pub struct ResourceId(pub u128);

/// What kind of destination a resource is.
#[derive(Clone, Copy, Debug, PartialEq, Eq, Structural, Hash)]
pub enum ResourceKind {
    /// A host name, or a pattern of host names.
    Dns,
    /// A range of addresses.
    Cidr,
    /// The catch-all route: everything that no other resource claims.
    Internet,
}

/// One destination that the tunnel exposes.
///
/// Resources arrive from the tunnel service as a full snapshot. The
/// controller reads the identity and the kind; name and address are carried
/// for the presentation layer.
#[derive(Debug, PartialEq, Eq)]
pub struct Resource {
    pub id: ResourceId,
    pub kind: ResourceKind,
    pub name: String,
    pub address: String,
}

impl Resource {
    /// The identity of the resource.
    pub open spec fn spec_id(&self) -> ResourceId {
        self.id
    }

    /// The identity of the resource.
    #[verifier::when_used_as_spec(spec_id)]
    pub fn id(&self) -> (id: ResourceId)
        ensures
            id == self.id,
    {
        self.id
    }

    /// Whether this is the resource that stands for the catch-all route.
    pub open spec fn spec_is_internet_resource(&self) -> bool {
        self.kind == ResourceKind::Internet
    }

    /// Whether this is the resource that stands for the catch-all route.
    #[verifier::when_used_as_spec(spec_is_internet_resource)]
    pub fn is_internet_resource(&self) -> (r: bool)
        ensures
            r == (self.kind == ResourceKind::Internet),
    {
        match self.kind {
            ResourceKind::Internet => true,
            ResourceKind::Dns => false,
            ResourceKind::Cidr => false,
        }
    }

    /// A copy of the resource, field for field.
    pub fn duplicate(&self) -> (copy: Resource)
        ensures
            copy == *self,
    {
        Resource {
            id: self.id,
            kind: self.kind,
            name: self.name.clone(),
            address: self.address.clone(),
        }
    }
}

/// Whether `resources[i]` is an internet resource and nothing before it is.
pub open spec fn is_first_internet_resource(resources: Seq<Resource>, i: int) -> bool {
    &&& 0 <= i < resources.len()
    &&& resources[i].is_internet_resource()
    &&& forall|j: int| 0 <= j < i ==> !(#[trigger] resources[j]).is_internet_resource()
}

/// The first internet resource of a snapshot, if it holds one.
pub open spec fn internet_resource_of(resources: Seq<Resource>) -> Option<Resource> {
    if exists|i: int| is_first_internet_resource(resources, i) {
        Some(resources[choose|i: int| is_first_internet_resource(resources, i)])
    } else {
        None
    }
}

/// At most one place of a snapshot holds its first internet resource.
pub proof fn first_internet_resource_is_unique(resources: Seq<Resource>, i: int, j: int)
    requires
        is_first_internet_resource(resources, i),
        is_first_internet_resource(resources, j),
    ensures
        i == j,
{
    if i < j {
        assert(!resources[i].is_internet_resource());
    } else if j < i {
        assert(!resources[j].is_internet_resource());
    }
}

/// The first internet resource of `resources`, copied out.
pub fn find_internet_resource(resources: &Vec<Resource>) -> (found: Option<Resource>)
    ensures
        found == internet_resource_of(resources@),
{
    let mut i: usize = 0;
    while i < resources.len()
        invariant
            i <= resources.len(),
            forall|j: int| 0 <= j < i ==> !(#[trigger] resources@[j]).is_internet_resource(),
        decreases resources.len() - i,
    {
        if resources[i].is_internet_resource() {
            proof {
                assert(is_first_internet_resource(resources@, i as int));
                let k = choose|k: int| is_first_internet_resource(resources@, k);
                first_internet_resource_is_unique(resources@, i as int, k);
            }
            return Some(resources[i].duplicate());
        }
        i += 1;
    }
    proof {
        assert forall|k: int| !is_first_internet_resource(resources@, k) by {
            if 0 <= k < resources.len() {
                assert(!resources@[k].is_internet_resource());
            }
        }
    }
    None
}

/// A copy of a snapshot, resource for resource.
pub fn duplicate_resources(resources: &Vec<Resource>) -> (copy: Vec<Resource>)
    ensures
        copy@ == resources@,
{
    let mut copy: Vec<Resource> = Vec::new();
    let mut i: usize = 0;
    while i < resources.len()
        invariant
            i <= resources.len(),
            copy@ == resources@.subrange(0, i as int),
        decreases resources.len() - i,
    {
        copy.push(resources[i].duplicate());
        assert(copy@ == resources@.subrange(0, i + 1));
        i += 1;
    }
    assert(resources@.subrange(0, resources.len() as int) == resources@);
    copy
}

} // verus!
