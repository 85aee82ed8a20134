//! The method registry: the closed set of wire method names the
//! dispatch core serves, and the exact-match lookup from a wire name to
//! its method. Lookup does no normalization and no case folding; a name
//! outside the set is rejected before any handler machinery runs.

use vstd::prelude::*;

verus! {

/// The operations of the service, one per wire method name.
#[derive(Clone, Copy, Debug, PartialEq, Eq, Structural)]
pub enum Method {
    GetObject,
    CreateObject,
    UpdateObject,
    DeleteObject,
    ListObjects,
    GetBucket,
    CreateBucket,
    DeleteBucket,
    ListBuckets,
    GetGcBatch,
    DeleteGcBatch,
}

/// The wire name of a method.
pub open spec fn method_name(m: Method) -> Seq<char> {
    match m {
        Method::GetObject => "getobject"@,
        Method::CreateObject => "createobject"@,
        Method::UpdateObject => "updateobject"@,
        Method::DeleteObject => "deleteobject"@,
        Method::ListObjects => "listobjects"@,
        Method::GetBucket => "getbucket"@,
        Method::CreateBucket => "createbucket"@,
        Method::DeleteBucket => "deletebucket"@,
        Method::ListBuckets => "listbuckets"@,
        Method::GetGcBatch => "getgcbatch"@,
        Method::DeleteGcBatch => "deletegcbatch"@,
    }
}

/// Exact-match lookup of a wire name in the registry.
pub open spec fn parse_method_spec(name: Seq<char>) -> Option<Method> {
    if name == "getobject"@ {
        Some(Method::GetObject)
    } else if name == "createobject"@ {
        Some(Method::CreateObject)
    } else if name == "updateobject"@ {
        Some(Method::UpdateObject)
    } else if name == "deleteobject"@ {
        Some(Method::DeleteObject)
    } else if name == "listobjects"@ {
        Some(Method::ListObjects)
    } else if name == "getbucket"@ {
        Some(Method::GetBucket)
    } else if name == "createbucket"@ {
        Some(Method::CreateBucket)
    } else if name == "deletebucket"@ {
        Some(Method::DeleteBucket)
    } else if name == "listbuckets"@ {
        Some(Method::ListBuckets)
    } else if name == "getgcbatch"@ {
        Some(Method::GetGcBatch)
    } else if name == "deletegcbatch"@ {
        Some(Method::DeleteGcBatch)
    } else {
        None
    }
}

impl Method {
    /// The wire name of this method.
    pub fn name(&self) -> (r: &'static str)
        ensures
            r@ == method_name(*self),
    {
        match self {
            Method::GetObject => "getobject",
            Method::CreateObject => "createobject",
            Method::UpdateObject => "updateobject",
            Method::DeleteObject => "deleteobject",
            Method::ListObjects => "listobjects",
            Method::GetBucket => "getbucket",
            Method::CreateBucket => "createbucket",
            Method::DeleteBucket => "deletebucket",
            Method::ListBuckets => "listbuckets",
            Method::GetGcBatch => "getgcbatch",
            Method::DeleteGcBatch => "deletegcbatch",
        }
    }
}

/// Look a wire name up in the registry.
pub fn parse_method(name: &str) -> (r: Option<Method>)
    ensures
        r == parse_method_spec(name@),
{
    let n = name.to_owned();
    if n == "getobject".to_owned() {
        Some(Method::GetObject)
    } else if n == "createobject".to_owned() {
        Some(Method::CreateObject)
    } else if n == "updateobject".to_owned() {
        Some(Method::UpdateObject)
    } else if n == "deleteobject".to_owned() {
        Some(Method::DeleteObject)
    } else if n == "listobjects".to_owned() {
        Some(Method::ListObjects)
    } else if n == "getbucket".to_owned() {
        Some(Method::GetBucket)
    } else if n == "createbucket".to_owned() {
        Some(Method::CreateBucket)
    } else if n == "deletebucket".to_owned() {
        Some(Method::DeleteBucket)
    } else if n == "listbuckets".to_owned() {
        Some(Method::ListBuckets)
    } else if n == "getgcbatch".to_owned() {
        Some(Method::GetGcBatch)
    } else if n == "deletegcbatch".to_owned() {
        Some(Method::DeleteGcBatch)
    } else {
        None
    }
}

/// Every registered name parses back to its own method and to no
/// other: dispatch routes each wire name in the registry to exactly
/// the method that owns it.
pub proof fn lemma_parse_method_complete(m: Method)
    ensures
        parse_method_spec(method_name(m)) == Some(m),
{
    reveal_strlit("getobject");
    reveal_strlit("createobject");
    reveal_strlit("updateobject");
    reveal_strlit("deleteobject");
    reveal_strlit("listobjects");
    reveal_strlit("getbucket");
    reveal_strlit("createbucket");
    reveal_strlit("deletebucket");
    reveal_strlit("listbuckets");
    reveal_strlit("getgcbatch");
    reveal_strlit("deletegcbatch");
    assert("getobject"@.len() == 9 && "createobject"@.len() == 12 && "updateobject"@.len() == 12
        && "deleteobject"@.len() == 12 && "listobjects"@.len() == 11 && "getbucket"@.len() == 9
        && "createbucket"@.len() == 12 && "deletebucket"@.len() == 12 && "listbuckets"@.len() == 11
        && "getgcbatch"@.len() == 10 && "deletegcbatch"@.len() == 13);
    assert("getbucket"@[3] == 'b' && "getobject"@[3] == 'o');
    assert("createobject"@[0] == 'c' && "updateobject"@[0] == 'u' && "deleteobject"@[0] == 'd');
    assert("createbucket"@[0] == 'c' && "deletebucket"@[0] == 'd');
    assert("createbucket"@[6] == 'b' && "createobject"@[6] == 'o');
    assert("deletebucket"@[6] == 'b' && "deleteobject"@[6] == 'o');
    assert("listbuckets"@[4] == 'b' && "listobjects"@[4] == 'o');
    match m {
        Method::GetObject => assert(parse_method_spec("getobject"@) == Some(Method::GetObject)),
        Method::CreateObject => assert(parse_method_spec("createobject"@) == Some(
            Method::CreateObject,
        )),
        Method::UpdateObject => assert(parse_method_spec("updateobject"@) == Some(
            Method::UpdateObject,
        )),
        Method::DeleteObject => assert(parse_method_spec("deleteobject"@) == Some(
            Method::DeleteObject,
        )),
        Method::ListObjects => assert(parse_method_spec("listobjects"@) == Some(
            Method::ListObjects,
        )),
        Method::GetBucket => assert(parse_method_spec("getbucket"@) == Some(Method::GetBucket)),
        Method::CreateBucket => assert(parse_method_spec("createbucket"@) == Some(
            Method::CreateBucket,
        )),
        Method::DeleteBucket => assert(parse_method_spec("deletebucket"@) == Some(
            Method::DeleteBucket,
        )),
        Method::ListBuckets => assert(parse_method_spec("listbuckets"@) == Some(
            Method::ListBuckets,
        )),
        Method::GetGcBatch => assert(parse_method_spec("getgcbatch"@) == Some(Method::GetGcBatch)),
        Method::DeleteGcBatch => assert(parse_method_spec("deletegcbatch"@) == Some(
            Method::DeleteGcBatch,
        )),
    }
}

/// A name the registry does not hold parses to nothing, and a parsed
/// method always owns the parsed name.
pub proof fn lemma_parse_method_exact(name: Seq<char>)
    ensures
        match parse_method_spec(name) {
            Some(m) => name == method_name(m),
            None => forall|m: Method| name != method_name(m),
        },
{
    if parse_method_spec(name) is None {
        assert forall|m: Method| name != method_name(m) by {
            match m {
                Method::GetObject => assert(name != "getobject"@),
                Method::CreateObject => assert(name != "createobject"@),
                Method::UpdateObject => assert(name != "updateobject"@),
                Method::DeleteObject => assert(name != "deleteobject"@),
                Method::ListObjects => assert(name != "listobjects"@),
                Method::GetBucket => assert(name != "getbucket"@),
                Method::CreateBucket => assert(name != "createbucket"@),
                Method::DeleteBucket => assert(name != "deletebucket"@),
                Method::ListBuckets => assert(name != "listbuckets"@),
                Method::GetGcBatch => assert(name != "getgcbatch"@),
                Method::DeleteGcBatch => assert(name != "deletegcbatch"@),
            }
        }
    }
}

} // verus!
