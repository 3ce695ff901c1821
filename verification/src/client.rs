//! The main client binary: its checksum-verified download into the
//! version cache.

use vstd::prelude::*;

use crate::checksum::{decode_checksum, hex_bytes, is_hex_text};
use crate::config::Config;
use crate::download::{opt_bytes, Download};
use crate::errors::GrindstoneResult;
use crate::version_data::VersionData;

verus! {

/// The client binary installer's decision part.
#[derive(Debug)]
pub struct Client;

impl Client {
    /// The checksum-verified download of the main client binary to the
    /// version cache, when the descriptor carries download references;
    /// `None` when it carries none. Fails with `InvalidChecksum` exactly
    /// when the client digest is malformed.
    pub fn build_download(config: &Config, version_data: &VersionData) -> (r: GrindstoneResult<
        Option<Download>,
    >)
        ensures
            version_data.downloads is None ==> (r matches Ok(o) && o is None),
            version_data.downloads matches Some(d) ==> match r {
                Ok(o) => {
                    &&& is_hex_text(d.client.sha1@)
                    &&& o matches Some(t) && t.url@ == d.client.url@ && t.file@
                        == config.version_jar_text() && opt_bytes(t.sha1) == Some(
                        hex_bytes(d.client.sha1@),
                    )
                },
                Err(e) => e is InvalidChecksum && !is_hex_text(d.client.sha1@),
            },
    {
        let downloads = match &version_data.downloads {
            Some(d) => d,
            None => {
                return Ok(None);
            },
        };
        let sha = match decode_checksum(downloads.client.sha1.as_str()) {
            Ok(s) => s,
            Err(e) => {
                return Err(e);
            },
        };
        Ok(
            Some(
                Download {
                    url: downloads.client.url.clone(),
                    file: config.version_jar_path(),
                    sha1: Some(sha),
                },
            ),
        )
    }
}

} // verus!
