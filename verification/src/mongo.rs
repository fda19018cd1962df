//! The trusted boundary to the database driver: assembling client
//! options from the configured host, port and credentials.

use vstd::prelude::*;

use crate::schema::DBConfig;

verus! {

/// `mongodb::options::ClientOptions`, carried opaquely: the driver's own
/// option bag, assembled below and consumed by the caller.
#[verifier::external_type_specification]
#[verifier::external_body]
pub struct ExClientOptions(mongodb::options::ClientOptions);

/// What the driver's option builder assembles from one host/port pair
/// and a username/password credential: a function of those values alone.
pub uninterp spec fn mongo_options_of(
    host: Seq<char>,
    port: Option<u16>,
    user: Seq<char>,
    password: Seq<char>,
) -> mongodb::options::ClientOptions;

impl DBConfig {
    /// Relies on mongodb's `ClientOptions`, `Credential` and
    /// `ServerAddress` builders: the assembled options address the one
    /// configured host and port over TCP and carry the configured
    /// credentials verbatim, and depend on those fields alone.
    #[verifier::external_body]
    pub fn gen_mongodb_options(&self) -> (r: mongodb::options::ClientOptions)
        ensures
            r == mongo_options_of(
                self.spec_host(),
                self.spec_port(),
                self.spec_user(),
                self.spec_password(),
            ),
    {
        let address = mongodb::options::ServerAddress::Tcp {
            host: self.host.to_string(),
            port: self.port,
        };
        let credential = mongodb::options::Credential::builder()
            .username(self.user.to_string())
            .password(self.password.to_string())
            .build();
        mongodb::options::ClientOptions::builder().hosts(vec![address]).credential(
            credential,
        ).build()
    }
}

} // verus!
