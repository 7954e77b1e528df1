use vstd::prelude::*;
use crate::config::database::DatabaseConfig;
use crate::utils::decimal::{decimal, decimal_text};

verus! {

/// The credentials part of a connection string: "user:password@" where both
/// are set and neither is empty, and nothing otherwise.
pub open spec fn credentials_part(user: Option<String>, password: Option<String>) -> Seq<char> {
    match (user, password) {
        (Some(u), Some(p)) => if u@.len() > 0 && p@.len() > 0 {
            u@ + ":"@ + p@ + "@"@
        } else {
            Seq::empty()
        },
        _ => Seq::empty(),
    }
}

/// The database that holds the credentials: the configured one, else "admin".
pub open spec fn auth_source_of(source: Option<String>) -> Seq<char> {
    match source {
        Some(s) => s@,
        None => "admin"@,
    }
}

/// The connection string of a database configuration.
pub open spec fn connection_string(db: DatabaseConfig) -> Seq<char> {
    "mongodb://"@ + credentials_part(db.user, db.password) + db.host@ + ":"@ + decimal(
        db.port as nat,
    ) + "/"@ + db.name@ + "?authSource="@ + auth_source_of(db.auth_source)
        + "&directConnection=true"@
}

/// The connection string ends with the authentication database: the
/// configured one where one is set, "admin" where none is, whatever the
/// credentials; and it starts with the scheme, then "user:password@" where
/// both are set and not empty, then the host.
pub proof fn law_auth_source(db: DatabaseConfig)
    ensures
        ({
            let uri = connection_string(db);
            let start = match (db.user, db.password) {
                (Some(u), Some(p)) => if u@.len() > 0 && p@.len() > 0 {
                    "mongodb://"@ + u@ + ":"@ + p@ + "@"@ + db.host@
                } else {
                    "mongodb://"@ + db.host@
                },
                _ => "mongodb://"@ + db.host@,
            };
            start.len() <= uri.len() && uri.subrange(0, start.len() as int) == start
        }),
        ({
            let uri = connection_string(db);
            let source = match db.auth_source {
                Some(a) => a@,
                None => "admin"@,
            };
            let tail = "?authSource="@ + source + "&directConnection=true"@;
            let head = "mongodb://"@ + credentials_part(db.user, db.password);
            &&& tail.len() <= uri.len()
            &&& uri.subrange(uri.len() - tail.len(), uri.len() as int) == tail
            &&& head.len() <= uri.len()
            &&& uri.subrange(0, head.len() as int) == head
        }),
{
    let uri = connection_string(db);
    let source = match db.auth_source {
        Some(a) => a@,
        None => "admin"@,
    };
    let tail = "?authSource="@ + source + "&directConnection=true"@;
    let head = "mongodb://"@ + credentials_part(db.user, db.password);
    let mid = db.host@ + ":"@ + decimal(db.port as nat) + "/"@ + db.name@;
    assert(uri =~= head + mid + tail);
    assert((head + mid + tail).subrange(
        (head + mid).len() as int,
        (head + mid + tail).len() as int,
    ) =~= tail);
    assert((head + mid + tail).subrange(0, head.len() as int) =~= head);
    let start = head + db.host@;
    assert(uri =~= start + (":"@ + decimal(db.port as nat) + "/"@ + db.name@ + tail));
    assert((start + (":"@ + decimal(db.port as nat) + "/"@ + db.name@ + tail)).subrange(
        0,
        start.len() as int,
    ) =~= start);
    match (db.user, db.password) {
        (Some(u), Some(p)) => {
            if u@.len() > 0 && p@.len() > 0 {
                assert(start =~= "mongodb://"@ + u@ + ":"@ + p@ + "@"@ + db.host@);
            } else {
                assert(start =~= "mongodb://"@ + db.host@);
            }
        },
        _ => {
            assert(start =~= "mongodb://"@ + db.host@);
        },
    }
}

/// Whether a configuration signs in: user and password both set and not empty.
pub fn has_credentials(db: &DatabaseConfig) -> (r: bool)
    ensures
        r == (credentials_part(db.user, db.password).len() > 0),
{
    match (&db.user, &db.password) {
        (Some(u), Some(p)) => {
            let r = u.as_str().is_empty() == false && p.as_str().is_empty() == false;
            proof {
                if r {
                    assert((u@ + ":"@ + p@ + "@"@).len() > 0);
                }
            }
            r
        },
        _ => false,
    }
}

/// The connection string to the database: credentials where both are set,
/// the configured authentication database or "admin", and a direct connection.
pub fn mongo_uri(db: &DatabaseConfig) -> (r: String)
    ensures
        r@ == connection_string(*db),
{
    let mut s = String::from_str("mongodb://");
    match (&db.user, &db.password) {
        (Some(u), Some(p)) => {
            if !u.as_str().is_empty() && !p.as_str().is_empty() {
                s.append(u.as_str());
                s.append(":");
                s.append(p.as_str());
                s.append("@");
            }
        },
        _ => {},
    }
    s.append(db.host.as_str());
    s.append(":");
    let port = decimal_text(db.port as u64);
    s.append(port.as_str());
    s.append("/");
    s.append(db.name.as_str());
    s.append("?authSource=");
    match &db.auth_source {
        Some(a) => s.append(a.as_str()),
        None => s.append("admin"),
    }
    s.append("&directConnection=true");
    proof {
        assert(s@ =~= connection_string(*db));
    }
    s
}

} // verus!
