use vstd::prelude::*;
use vstd::string::*;

use crate::models::DatabaseConfig;
use crate::text::spec_i32_digits;
use crate::text::i32_to_string;

verus! {

/// The connection URL that the stored settings describe.
pub open spec fn spec_database_url(cfg: DatabaseConfig) -> Seq<char> {
    "mysql://"@ + cfg.user@ + ":"@ + cfg.password@ + "@"@ + cfg.host@ + ":"@
        + spec_i32_digits(cfg.port as int) + "/"@ + cfg.name@
}

/// Builds the database connection URL from the loaded settings.
pub fn database_url(cfg: &DatabaseConfig) -> (r: String)
    ensures
        r@ == spec_database_url(*cfg),
{
    let mut s = String::new();
    s.append("mysql://");
    s.append(cfg.user.as_str());
    s.append(":");
    s.append(cfg.password.as_str());
    s.append("@");
    s.append(cfg.host.as_str());
    s.append(":");
    let port = i32_to_string(cfg.port);
    s.append(port.as_str());
    s.append("/");
    s.append(cfg.name.as_str());
    proof {
        assert(s@ =~= spec_database_url(*cfg));
    }
    s
}

} // verus!
