//! Parsing of cloud object URIs of the form `s3://bucket/key` or
//! `gs://bucket/key` into a `(bucket, key)` pair.

use vstd::prelude::*;
use vstd::string::StrSliceExecFns;
use vstd::string::StringExecFns;

verus! {

/// Error returned for a URI that does not have the form `s3://bucket/key`
/// or `gs://bucket/key`.
#[derive(Clone, Copy, Debug, PartialEq, Eq, Structural)]
pub struct UriError;

impl UriError {
    /// A human-readable description of the error.
    pub fn message(&self) -> (m: &'static str)
        ensures
            m@ == "Invalid cloud storage URI format. Expected s3://bucket/key or gs://bucket/key"@,
    {
        "Invalid cloud storage URI format. Expected s3://bucket/key or gs://bucket/key"
    }
}

/// The URI starts with the S3 scheme prefix `s3://`.
pub open spec fn has_s3_scheme(s: Seq<char>) -> bool {
    s.len() >= 5 && s[0] == 's' && s[1] == '3' && s[2] == ':' && s[3] == '/' && s[4] == '/'
}

/// The URI starts with the GCS scheme prefix `gs://`.
pub open spec fn has_gs_scheme(s: Seq<char>) -> bool {
    s.len() >= 5 && s[0] == 'g' && s[1] == 's' && s[2] == ':' && s[3] == '/' && s[4] == '/'
}

/// The URI starts with one of the two recognized scheme prefixes.
pub open spec fn has_cloud_scheme(s: Seq<char>) -> bool {
    has_s3_scheme(s) || has_gs_scheme(s)
}

/// Position `i` holds the first `/` after the five scheme characters:
/// the separator between bucket and key.
pub open spec fn first_slash_at(s: Seq<char>, i: int) -> bool {
    &&& 5 <= i < s.len()
    &&& s[i] == '/'
    &&& forall|j: int| 5 <= j < i ==> s[j] != '/'
}

/// A URI parses successfully exactly when it carries a cloud scheme and
/// a `/` separating a bucket from a key.
pub open spec fn uri_well_formed(s: Seq<char>) -> bool {
    has_cloud_scheme(s) && exists|i: int| first_slash_at(s, i)
}

/// `bucket` and `key` are the two parts of `s` around the first `/`
/// after the scheme prefix; the key may itself contain `/`.
pub open spec fn splits_uri(s: Seq<char>, bucket: Seq<char>, key: Seq<char>) -> bool {
    exists|i: int|
        {
            &&& #[trigger] first_slash_at(s, i)
            &&& bucket == s.subrange(5, i)
            &&& key == s.subrange(i + 1, s.len() as int)
        }
}

/// Parses a cloud storage URI (e.g. `s3://bucket/key` or `gs://bucket/key`)
/// into a `(bucket, key)` pair. A missing URI parses to `None`; a present
/// but malformed URI is an error.
#[verifier::loop_isolation(false)]
pub fn parse_uri(uri: &Option<String>) -> (r: Result<Option<(String, String)>, UriError>)
    ensures
        match uri {
            None => r == Ok::<Option<(String, String)>, UriError>(None),
            Some(s) => match r {
                Ok(Some((bucket, key))) => uri_well_formed(s@) && splits_uri(
                    s@,
                    bucket@,
                    key@,
                ),
                Ok(None) => false,
                Err(_) => !uri_well_formed(s@),
            },
        },
{
    match uri {
        None => Ok(None),
        Some(s) => {
            let st: &str = s.as_str();
            let n: usize = st.unicode_len();
            if n < 5 {
                return Err(UriError);
            }
            let c0 = st.get_char(0);
            let c1 = st.get_char(1);
            let c2 = st.get_char(2);
            let c3 = st.get_char(3);
            let c4 = st.get_char(4);
            let scheme_ok = (c2 == ':' && c3 == '/' && c4 == '/') && ((c0 == 's' && c1 == '3')
                || (c0 == 'g' && c1 == 's'));
            if !scheme_ok {
                return Err(UriError);
            }
            let mut i: usize = 5;
            while i < n
                invariant
                    5 <= i <= n,
                    n == st@.len(),
                    forall|j: int| 5 <= j < i ==> st@[j] != '/',
                decreases n - i,
            {
                if st.get_char(i) == '/' {
                    let bucket = String::from_str(st.substring_char(5, i));
                    let key = String::from_str(st.substring_char(i + 1, n));
                    proof {
                        assert(first_slash_at(s@, i as int));
                    }
                    return Ok(Some((bucket, key)));
                }
                i += 1;
            }
            proof {
                assert(forall|k: int| 5 <= k < s@.len() ==> s@[k] != '/');
            }
            Err(UriError)
        },
    }
}

} // verus!
