//! The server's configuration: where the database and schema live, the
//! local address to bind, and the advertised public address the
//! reachability self-test probes.

use vstd::prelude::*;

verus! {

/// The abstract value of a `Config`: its four strings.
pub ghost struct ConfigView {
    pub db_path: Seq<char>,
    pub schema_path: Seq<char>,
    pub addr: Seq<char>,
    pub pub_addr: Seq<char>,
}

/// The server's live configuration. `addr` is the local socket address
/// the listener binds; `pub_addr` is the externally advertised address
/// clients use — the two may differ behind NAT or a proxy, which is
/// exactly what the self-test exists to catch.
pub struct Config {
    db_path: String,
    schema_path: String,
    addr: String,
    pub_addr: String,
}

impl View for Config {
    type V = ConfigView;

    closed spec fn view(&self) -> ConfigView {
        ConfigView {
            db_path: self.db_path@,
            schema_path: self.schema_path@,
            addr: self.addr@,
            pub_addr: self.pub_addr@,
        }
    }
}

impl Config {
    pub fn new(db_path: String, schema_path: String, addr: String, pub_addr: String) -> (c: Self)
        ensures
            c@ == (ConfigView {
                db_path: db_path@,
                schema_path: schema_path@,
                addr: addr@,
                pub_addr: pub_addr@,
            }),
    {
        Config { db_path, schema_path, addr, pub_addr }
    }

    pub fn db_path(&self) -> (p: &String)
        ensures
            p@ == self@.db_path,
    {
        &self.db_path
    }

    pub fn db_path_mut(&mut self) -> (p: &mut String)
        ensures
            (*p)@ == old(self)@.db_path,
            final(self)@ == (ConfigView { db_path: (*final(p))@, ..old(self)@ }),
    {
        &mut self.db_path
    }

    pub fn set_db_path(&mut self, value: String)
        ensures
            final(self)@ == (ConfigView { db_path: value@, ..old(self)@ }),
    {
        self.db_path = value;
    }

    pub fn schema_path(&self) -> (p: &String)
        ensures
            p@ == self@.schema_path,
    {
        &self.schema_path
    }

    pub fn schema_path_mut(&mut self) -> (p: &mut String)
        ensures
            (*p)@ == old(self)@.schema_path,
            final(self)@ == (ConfigView { schema_path: (*final(p))@, ..old(self)@ }),
    {
        &mut self.schema_path
    }

    pub fn set_schema_path(&mut self, value: String)
        ensures
            final(self)@ == (ConfigView { schema_path: value@, ..old(self)@ }),
    {
        self.schema_path = value;
    }

    pub fn addr(&self) -> (p: &String)
        ensures
            p@ == self@.addr,
    {
        &self.addr
    }

    pub fn addr_mut(&mut self) -> (p: &mut String)
        ensures
            (*p)@ == old(self)@.addr,
            final(self)@ == (ConfigView { addr: (*final(p))@, ..old(self)@ }),
    {
        &mut self.addr
    }

    pub fn set_addr(&mut self, value: String)
        ensures
            final(self)@ == (ConfigView { addr: value@, ..old(self)@ }),
    {
        self.addr = value;
    }

    pub fn pub_addr(&self) -> (p: &String)
        ensures
            p@ == self@.pub_addr,
    {
        &self.pub_addr
    }

    pub fn pub_addr_mut(&mut self) -> (p: &mut String)
        ensures
            (*p)@ == old(self)@.pub_addr,
            final(self)@ == (ConfigView { pub_addr: (*final(p))@, ..old(self)@ }),
    {
        &mut self.pub_addr
    }

    pub fn set_pub_addr(&mut self, value: String)
        ensures
            final(self)@ == (ConfigView { pub_addr: value@, ..old(self)@ }),
    {
        self.pub_addr = value;
    }

    /// This configuration as its storable counterpart, field for field.
    pub fn to_ser(&self) -> (s: ConfigSerializable)
        ensures
            s.db_path@ == self@.db_path,
            s.schema_path@ == self@.schema_path,
            s.addr@ == self@.addr,
            s.pub_addr@ == self@.pub_addr,
    {
        ConfigSerializable {
            db_path: self.db_path.clone(),
            schema_path: self.schema_path.clone(),
            addr: self.addr.clone(),
            pub_addr: self.pub_addr.clone(),
        }
    }

    /// A configuration taken field for field from its storable
    /// counterpart.
    pub fn from_ser(value: ConfigSerializable) -> (c: Self)
        ensures
            c@ == (ConfigView {
                db_path: value.db_path@,
                schema_path: value.schema_path@,
                addr: value.addr@,
                pub_addr: value.pub_addr@,
            }),
    {
        Config {
            db_path: value.db_path,
            schema_path: value.schema_path,
            addr: value.addr,
            pub_addr: value.pub_addr,
        }
    }
}

impl Default for Config {
    /// The documented defaults, used when no configuration file exists
    /// yet.
    fn default() -> (c: Self)
        ensures
            c@.db_path == "database.sqlite"@,
            c@.schema_path == "sql/schema.sql"@,
            c@.addr == "0.0.0.0:8080"@,
            c@.pub_addr == "mail.example.com:8080"@,
    {
        Config::new(
            "database.sqlite".to_owned(),
            "sql/schema.sql".to_owned(),
            "0.0.0.0:8080".to_owned(),
            "mail.example.com:8080".to_owned(),
        )
    }
}

/// The exchange form of a configuration: plain named strings, the shape
/// in which the configuration is stored on disk and loaded back.
pub struct ConfigSerializable {
    pub db_path: String,
    pub schema_path: String,
    pub addr: String,
    pub pub_addr: String,
}

impl ConfigSerializable {
    /// The storable counterpart of `value`, field for field.
    pub fn from_cfg(value: &Config) -> (s: Self)
        ensures
            s.db_path@ == value@.db_path,
            s.schema_path@ == value@.schema_path,
            s.addr@ == value@.addr,
            s.pub_addr@ == value@.pub_addr,
    {
        value.to_ser()
    }
}

} // verus!
