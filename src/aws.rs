//! Cloud metadata of the local instance: which documents to read from the
//! metadata service, and what to keep of the answers.
use vstd::prelude::*;

verus! {

/// Where the cloud metadata service listens.
#[derive(Debug)]
pub struct AwsMetadata {
    host: String,
}

/// The answers that came back, in order, without the keys that had none.
pub open spec fn present(results: Seq<(String, Option<String>)>) -> Seq<(String, String)>
    decreases results.len(),
{
    if results.len() == 0 {
        Seq::empty()
    } else {
        let front = present(results.drop_last());
        match results.last().1 {
            Some(v) => front.push((results.last().0, v)),
            None => front,
        }
    }
}

/// The metadata documents read from the service: the name each answer is kept
/// under, and the document path.
pub open spec fn metadata_documents() -> Seq<(Seq<char>, Seq<char>)> {
    seq![
        ("ami-id"@, "ami-id"@),
        ("instance-id"@, "instance-id"@),
        ("instance-type"@, "instance-type"@),
        ("local-ipv4"@, "local-ipv4"@),
        ("local-hostname"@, "local-hostname"@),
        ("availability-zone"@, "placement/availability-zone"@),
        ("public-hostname"@, "public-hostname"@),
        ("public-ipv4"@, "public-ipv4"@),
        ("mac"@, "mac"@),
    ]
}

pub open spec fn pair_views(v: Seq<(String, String)>) -> Seq<(Seq<char>, Seq<char>)> {
    v.map_values(|p: (String, String)| (p.0@, p.1@))
}

impl AwsMetadata {
    pub closed spec fn spec_host(&self) -> Seq<char> {
        self.host@
    }

    /// A client of the service at `host`, or at the link-local default.
    pub fn new(host: Option<String>) -> (r: Self)
        ensures
            r.spec_host() == (match host {
                Some(h) => h@,
                None => "169.254.169.254"@,
            }),
    {
        AwsMetadata {
            host: match host {
                Some(h) => h,
                None => String::from_str("169.254.169.254"),
            },
        }
    }

    /// The URL of a metadata document.
    pub fn lookup_metadata_key(&self, key: &str) -> (r: String)
        ensures
            r@ == "http://"@ + self.spec_host() + "/latest/meta-data/"@ + key@,
    {
        let mut url = String::from_str("http://");
        url.append(self.host.as_str());
        url.append("/latest/meta-data/");
        url.append(key);
        url
    }

    /// The URL of the instance identity document.
    pub fn lookup_instance_identity(&self) -> (r: String)
        ensures
            r@ == "http://"@ + self.spec_host() + "/latest/dynamic/instance-identity/document"@,
    {
        let mut url = String::from_str("http://");
        url.append(self.host.as_str());
        url.append("/latest/dynamic/instance-identity/document");
        url
    }

    /// The metadata documents to read: the name each answer is kept under and
    /// the document path.
    pub fn metadata_keys() -> (r: Vec<(String, String)>)
        ensures
            pair_views(r@) == metadata_documents(),
    {
        let mut r: Vec<(String, String)> = Vec::new();
        r.push((String::from_str("ami-id"), String::from_str("ami-id")));
        r.push((String::from_str("instance-id"), String::from_str("instance-id")));
        r.push((String::from_str("instance-type"), String::from_str("instance-type")));
        r.push((String::from_str("local-ipv4"), String::from_str("local-ipv4")));
        r.push((String::from_str("local-hostname"), String::from_str("local-hostname")));
        r.push(
            (String::from_str("availability-zone"), String::from_str("placement/availability-zone")),
        );
        r.push((String::from_str("public-hostname"), String::from_str("public-hostname")));
        r.push((String::from_str("public-ipv4"), String::from_str("public-ipv4")));
        r.push((String::from_str("mac"), String::from_str("mac")));
        proof {
            assert(pair_views(r@) =~= metadata_documents());
        }
        r
    }

    /// The document path of the VPC id of the interface with address `mac`.
    pub fn vpc_id_key(mac: &str) -> (r: String)
        ensures
            r@ == "network/interfaces/macs/"@ + mac@ + "/vpc-id"@,
    {
        let mut key = String::from_str("network/interfaces/macs/");
        key.append(mac);
        key.append("/vpc-id");
        key
    }

    /// Keeps the keys that got an answer, with their values, in order.
    pub fn fetch_metadata(&self, results: Vec<(String, Option<String>)>) -> (r: Vec<(String, String)>)
        ensures
            r@ == present(results@),
    {
        let mut out: Vec<(String, String)> = Vec::new();
        let mut rest = results;
        let ghost all = rest@;
        let ghost mut k: int = 0;
        while rest.len() > 0
            invariant
                0 <= k <= all.len(),
                rest@ == all.subrange(k, all.len() as int),
                out@ == present(all.subrange(0, k)),
            decreases rest.len(),
        {
            let (key, value) = rest.remove(0);
            proof {
                assert(all.subrange(0, k + 1).drop_last() =~= all.subrange(0, k));
            }
            match value {
                Some(v) => out.push((key, v)),
                None => {},
            }
            proof {
                k = k + 1;
                assert(rest@ =~= all.subrange(k, all.len() as int));
            }
        }
        proof {
            assert(all.subrange(0, k) =~= all);
        }
        out
    }
}

} // verus!
