//! Data-warehouse interface types: dataset locations, credential
//! sources, and the one templated query the toolkit issues.  The
//! network client itself lives outside the verified library.

use vstd::prelude::*;
use vstd::string::StringExecFns;

use crate::errors::UtilError;

verus! {

/// A dataset's address: the project and the dataset inside it.
pub struct Location {
    pub project_id: String,
    pub dataset_id: String,
}

impl Location {
    /// A location from its two components.
    pub fn new(project_id: &str, dataset_id: &str) -> (r: Location)
        ensures
            r.project_id@ == project_id@,
            r.dataset_id@ == dataset_id@,
    {
        Location { project_id: project_id.to_owned(), dataset_id: dataset_id.to_owned() }
    }

    /// The fully qualified `project.dataset.table` name.
    pub fn table_name(&self, table_name: &str) -> (r: String)
        ensures
            r@ == self.project_id@ + "."@ + self.dataset_id@ + "."@ + table_name@,
    {
        let mut s = self.project_id.clone();
        s.append(".");
        s.append(self.dataset_id.as_str());
        s.append(".");
        s.append(table_name);
        s
    }
}

/// Where default credentials were found.
#[derive(Clone, Copy, Debug, PartialEq, Eq, Structural)]
pub enum DefaultCredentialSource {
    EnvVar,
    DefaultSecretsFile,
    MetadataServer,
}

/// One row of the involvement query: the transaction and the fields an
/// address can occur in.
pub struct InvolvementResult {
    pub txn_id: Option<String>,
    pub data: Option<String>,
    pub code: Option<String>,
    pub receipt: Option<String>,
    pub to_addr: Option<String>,
    pub from_addr_zil: Option<String>,
}

/// The networks with a dataset, and the location of each.
#[derive(Clone, Copy, Debug, PartialEq, Eq, Structural)]
pub enum BqNetwork {
    Mainnet,
    Testnet,
}

/// The project and dataset that hold a network's data.
pub fn bq_params_from_network(net: &BqNetwork) -> (r: Result<Location, UtilError>)
    ensures
        r matches Ok(loc) && loc.project_id@ == "prj-c-data-analytics-3xs14wez"@ && (net
            is Testnet ==> loc.dataset_id@ == "ds_zq1_testnet"@) && (net is Mainnet
            ==> loc.dataset_id@ == "ds_zq1_mainnet"@),
{
    match net {
        BqNetwork::Testnet => Ok(Location::new("prj-c-data-analytics-3xs14wez", "ds_zq1_testnet")),
        BqNetwork::Mainnet => Ok(Location::new("prj-c-data-analytics-3xs14wez", "ds_zq1_mainnet")),
    }
}

/// The default path of the local credentials file under a home
/// directory.
pub fn default_credentials_file(home: &str) -> (r: String)
    ensures
        r@ == home@ + "/.config/gcloud/application_default_credentials.json"@,
{
    let mut s = home.to_owned();
    s.append("/.config/gcloud/application_default_credentials.json");
    s
}

/// The templated involvement query over a table, for one rendered
/// address.
pub fn involved_query(table: &str, address: &str) -> (r: String)
    ensures
        r@ == "SELECT id,SAFE_CONVERT_BYTES_TO_STRING(data), SAFE_CONVERT_BYTES_TO_STRING(code),receipt,to_addr, from_addr_zil FROM `"@
            + table@ + "` WHERE SAFE_CONVERT_BYTES_TO_STRING(data) LIKE '%"@ + address@
            + "%' OR from_addr_zil = '0x"@ + address@ + "' OR receipt LIKE '%"@ + address@
            + "%' OR SAFE_CONVERT_BYTES_TO_STRING(code) LIKE '%"@ + address@
            + "%' ORDER BY block,offset_in_block ASC"@,
{
    let mut s =
        "SELECT id,SAFE_CONVERT_BYTES_TO_STRING(data), SAFE_CONVERT_BYTES_TO_STRING(code),receipt,to_addr, from_addr_zil FROM `".to_owned();
    s.append(table);
    s.append("` WHERE SAFE_CONVERT_BYTES_TO_STRING(data) LIKE '%");
    s.append(address);
    s.append("%' OR from_addr_zil = '0x");
    s.append(address);
    s.append("' OR receipt LIKE '%");
    s.append(address);
    s.append("%' OR SAFE_CONVERT_BYTES_TO_STRING(code) LIKE '%");
    s.append(address);
    s.append("%' ORDER BY block,offset_in_block ASC");
    s
}

/// The order default credentials are sought in: the file the
/// environment names first, when set; then the local secrets file
/// under the home directory, when one is known; then the metadata
/// server, always last.
pub fn credential_search_order(env_credentials: &Option<String>, home: &Option<String>) -> (r: Vec<
    (DefaultCredentialSource, Option<String>),
>)
    ensures
        r@.len() == 1 + (if env_credentials is Some {
            1int
        } else {
            0int
        }) + (if home is Some {
            1int
        } else {
            0int
        }),
        r@.last().0 is MetadataServer && r@.last().1 is None,
        env_credentials matches Some(p) ==> r@[0].0 is EnvVar && (r@[0].1 matches Some(f) && f@
            == p@),
        home matches Some(h) ==> {
            let i = if env_credentials is Some {
                1int
            } else {
                0int
            };
            r@[i].0 is DefaultSecretsFile && (r@[i].1 matches Some(f) && f@ == h@
                + "/.config/gcloud/application_default_credentials.json"@)
        },
{
    let mut r: Vec<(DefaultCredentialSource, Option<String>)> = Vec::new();
    match env_credentials {
        Some(p) => {
            r.push((DefaultCredentialSource::EnvVar, Some(p.clone())));
        },
        None => {},
    }
    match home {
        Some(h) => {
            r.push(
                (DefaultCredentialSource::DefaultSecretsFile, Some(default_credentials_file(h))),
            );
        },
        None => {},
    }
    r.push((DefaultCredentialSource::MetadataServer, None));
    r
}

} // verus!
