//! The runtime-provider interface, and the parsing half of pre-installed
//! runtime discovery.
//!
//! A provider knows how to build the release-index queries for its runtime
//! and how to judge a downloaded archive against the digest the index
//! answered with.  The orchestration never depends on which provider is
//! plugged in.

pub mod liberica;

use vstd::prelude::*;

use crate::text::{
    contains_sub, find_char, lemma_find_characterization, spec_contains, spec_find, spec_trim,
    trim_str,
};

verus! {

/// A runtime provider: release-index queries and the archive digest check.
pub trait Jre {
    /// The release-index query URL whose answer is the given field of the
    /// matching release.
    spec fn spec_query_url(&self, field: Seq<char>) -> Seq<char>;

    /// Whether archive bytes pass this provider's digest check against the
    /// digest string the release index answered with.
    spec fn spec_archive_ok(&self, archive: Seq<u8>, digest: Seq<char>) -> bool;

    /// Builds the release-index query URL for the given answer field.
    fn query_url(&self, field: &str) -> (r: String)
        ensures
            r@ == self.spec_query_url(field@),
    ;

    /// Checks the downloaded archive against the expected digest.
    fn check_jre_archive(&self, archive: &Vec<u8>, expected_digest: &str) -> (r: bool)
        ensures
            r == self.spec_archive_ok(archive@, expected_digest@),
    ;
}

/// The home path a properties line reports: on a line naming `java.home`
/// and carrying `=`, whatever follows the first `=`, trimmed of
/// surrounding ASCII whitespace.
pub open spec fn spec_java_home_value(line: Seq<char>) -> Option<Seq<char>> {
    if spec_contains(line, "java.home"@) && spec_find(line, '=') is Some {
        Some(spec_trim(line.skip(spec_find(line, '=')->Some_0 + 1)))
    } else {
        None
    }
}

/// Reads the reported home path off one line of the runtime's printed
/// properties.  The caller feeds it the lines a `java -XshowSettings`
/// style query printed, and accepts the first hit that also carries the
/// marker file proving the runtime flavor.
pub fn java_home_value(line: &str) -> (r: Option<String>)
    ensures
        r is Some <==> spec_java_home_value(line@) is Some,
        r matches Some(v) ==> Some(v@) == spec_java_home_value(line@),
{
    if !contains_sub(line, "java.home") {
        return None;
    }
    let n = line.unicode_len();
    match find_char(line, '=') {
        None => None,
        Some(p) => {
            proof {
                lemma_find_characterization(line@, '=');
            }
            let rest = line.substring_char(p + 1, n);
            assert(rest@ =~= line@.skip(p as int + 1));
            let trimmed = trim_str(rest);
            Some(trimmed.to_owned())
        },
    }
}

} // verus!
