use vstd::prelude::*;
use vstd::string::StringExecFns;
use crate::record::Credential;

verus! {

/// One outbound API request as the transport must issue it: the path to
/// fetch and, in authenticated mode, the bearer header's value. The
/// transport adds its own client-identifying header; nothing the pipeline
/// decides depends on it.
pub struct ApiRequest {
    pub path: String,
    pub bearer: Option<String>,
}

/// Mathematical value of an [`ApiRequest`].
#[verifier::ext_equal]
pub struct ApiRequestV {
    pub path: Seq<char>,
    pub bearer: Option<Seq<char>>,
}

impl View for ApiRequest {
    type V = ApiRequestV;

    open spec fn view(&self) -> ApiRequestV {
        ApiRequestV {
            path: self.path@,
            bearer: match self.bearer {
                Some(b) => Some(b@),
                None => None,
            },
        }
    }
}

/// The bearer header value a token gives.
pub open spec fn bearer_value_spec(token: Seq<char>) -> Seq<char> {
    "Bearer "@ + token
}

/// The request a path and an optional token give: the path verbatim, and
/// a bearer header exactly in authenticated mode.
pub open spec fn build_request_spec(path: Seq<char>, token: Option<Seq<char>>) -> ApiRequestV {
    ApiRequestV {
        path,
        bearer: match token {
            Some(t) => Some(bearer_value_spec(t)),
            None => None,
        },
    }
}

/// Builds the request for `path`, authenticated when a credential is
/// present and anonymous otherwise.
pub fn build_request(path: String, cred: &Option<Credential>) -> (r: ApiRequest)
    ensures
        r@ == build_request_spec(
            path@,
            match *cred {
                Some(c) => Some(c.token@),
                None => None,
            },
        ),
{
    let bearer = match cred {
        Some(c) => {
            let mut b = "Bearer ".to_owned();
            b.append(c.token.as_str());
            Some(b)
        },
        None => None,
    };
    let r = ApiRequest { path, bearer };
    proof {
        assert(r@ =~= build_request_spec(
            r.path@,
            match *cred {
                Some(c) => Some(c.token@),
                None => None,
            },
        ));
    }
    r
}

/// Anonymous and authenticated modes issue the same request but for the
/// bearer header: the path is identical in both, and the header is
/// present exactly when a credential is.
pub proof fn lemma_modes_share_path(path: Seq<char>, token: Seq<char>)
    ensures
        build_request_spec(path, Some(token)).path == build_request_spec(path, None).path,
        build_request_spec(path, Some(token)).bearer == Some(bearer_value_spec(token)),
        build_request_spec(path, None).bearer is None,
{
}

} // verus!
