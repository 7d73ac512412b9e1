//! Where the repositories live.
use vstd::prelude::*;

verus! {

#[derive(Clone, Debug)]
pub struct DbConfig {
    pub db_type: String,
    pub connection_string: String,
    pub database_name: String,
}

impl DbConfig {
    pub fn new(db_type: &str, connection_string: &str, database_name: &str) -> (r: Self)
        ensures
            r.db_type@ == db_type@,
            r.connection_string@ == connection_string@,
            r.database_name@ == database_name@,
    {
        DbConfig {
            db_type: db_type.to_string(),
            connection_string: connection_string.to_string(),
            database_name: database_name.to_string(),
        }
    }

    /// A builder with nothing set.
    pub fn builder() -> (r: DbConfigBuilder)
        ensures
            r.db_type_spec() is None,
            r.connection_string_spec() is None,
            r.database_name_spec() is None,
    {
        DbConfigBuilder::default()
    }
}

/// Collects the three settings of a [`DbConfig`] one at a time.
pub struct DbConfigBuilder {
    db_type: Option<String>,
    connection_string: Option<String>,
    database_name: Option<String>,
}

pub open spec fn opt_view(o: Option<String>) -> Option<Seq<char>> {
    match o {
        Some(s) => Some(s@),
        None => None,
    }
}

impl Default for DbConfigBuilder {
    fn default() -> (r: Self)
        ensures
            r.db_type_spec() is None,
            r.connection_string_spec() is None,
            r.database_name_spec() is None,
    {
        DbConfigBuilder { db_type: None, connection_string: None, database_name: None }
    }
}

impl DbConfigBuilder {
    pub closed spec fn db_type_spec(&self) -> Option<Seq<char>> {
        opt_view(self.db_type)
    }

    pub closed spec fn connection_string_spec(&self) -> Option<Seq<char>> {
        opt_view(self.connection_string)
    }

    pub closed spec fn database_name_spec(&self) -> Option<Seq<char>> {
        opt_view(self.database_name)
    }

    pub fn db_type(self, db_type: &str) -> (r: Self)
        ensures
            r.db_type_spec() == Some(db_type@),
            r.connection_string_spec() == self.connection_string_spec(),
            r.database_name_spec() == self.database_name_spec(),
    {
        DbConfigBuilder { db_type: Some(db_type.to_string()), ..self }
    }

    pub fn connection_string(self, connection_string: &str) -> (r: Self)
        ensures
            r.db_type_spec() == self.db_type_spec(),
            r.connection_string_spec() == Some(connection_string@),
            r.database_name_spec() == self.database_name_spec(),
    {
        DbConfigBuilder { connection_string: Some(connection_string.to_string()), ..self }
    }

    pub fn database_name(self, database_name: &str) -> (r: Self)
        ensures
            r.db_type_spec() == self.db_type_spec(),
            r.connection_string_spec() == self.connection_string_spec(),
            r.database_name_spec() == Some(database_name@),
    {
        DbConfigBuilder { database_name: Some(database_name.to_string()), ..self }
    }

    /// The configuration, once all three settings are there; else the first one
    /// missing is named.
    pub fn build(self) -> (r: Result<DbConfig, &'static str>)
        ensures
            match r {
                Ok(c) => {
                    &&& self.db_type_spec() == Some(c.db_type@)
                    &&& self.connection_string_spec() == Some(c.connection_string@)
                    &&& self.database_name_spec() == Some(c.database_name@)
                },
                Err(msg) => {
                    &&& (self.db_type_spec() is None || self.connection_string_spec() is None
                        || self.database_name_spec() is None)
                    &&& msg@ == (if self.db_type_spec() is None {
                        "db_type is required"@
                    } else if self.connection_string_spec() is None {
                        "connection_string is required"@
                    } else {
                        "database_name is required"@
                    })
                },
            },
    {
        let db_type = match self.db_type {
            Some(s) => s,
            None => return Err("db_type is required"),
        };
        let connection_string = match self.connection_string {
            Some(s) => s,
            None => return Err("connection_string is required"),
        };
        let database_name = match self.database_name {
            Some(s) => s,
            None => return Err("database_name is required"),
        };
        Ok(DbConfig { db_type, connection_string, database_name })
    }
}

} // verus!
