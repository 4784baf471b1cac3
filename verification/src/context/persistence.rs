use vstd::prelude::*;

verus! {

/// The storage technology a generated resource targets.
#[derive(Debug, Clone, Copy, PartialEq, Eq, Structural)]
pub enum Persistence {
    JpaRelational,
    MongoDb,
}

impl Default for Persistence {
    /// Relational JPA is the default.
    fn default() -> (r: Self)
        ensures
            r == Persistence::JpaRelational,
    {
        Persistence::JpaRelational
    }
}

impl Persistence {
    /// Every persistence option, in the order the picker shows them.
    pub fn all() -> (r: &'static [Persistence])
        ensures
            r@ == seq![Persistence::JpaRelational, Persistence::MongoDb],
    {
        let r: &'static [Persistence] = &[Persistence::JpaRelational, Persistence::MongoDb];
        r
    }

    pub open spec fn spec_label(self) -> Seq<char> {
        match self {
            Persistence::JpaRelational => "JPA (SQL)"@,
            Persistence::MongoDb => "MongoDB (NoSQL)"@,
        }
    }

    /// The text the picker shows for this option.
    pub fn label(&self) -> (r: &'static str)
        ensures
            r@ == self.spec_label(),
    {
        match self {
            Persistence::JpaRelational => "JPA (SQL)",
            Persistence::MongoDb => "MongoDB (NoSQL)",
        }
    }

    pub open spec fn spec_is_jpa(self) -> bool {
        self == Persistence::JpaRelational
    }

    pub fn is_jpa(&self) -> (r: bool)
        ensures
            r == self.spec_is_jpa(),
    {
        match self {
            Persistence::JpaRelational => true,
            Persistence::MongoDb => false,
        }
    }

    pub open spec fn spec_entity_template(self) -> Seq<char> {
        match self {
            Persistence::JpaRelational => "entity/jpa.java.tera"@,
            Persistence::MongoDb => "entity/mongo.java.tera"@,
        }
    }

    /// The template that renders the entity class.
    pub fn entity_template(&self) -> (r: &'static str)
        ensures
            r@ == self.spec_entity_template(),
    {
        match self {
            Persistence::JpaRelational => "entity/jpa.java.tera",
            Persistence::MongoDb => "entity/mongo.java.tera",
        }
    }

    pub open spec fn spec_repository_template(self) -> Seq<char> {
        match self {
            Persistence::JpaRelational => "repository/jpa.java.tera"@,
            Persistence::MongoDb => "repository/mongo.java.tera"@,
        }
    }

    /// The template that renders the repository interface.
    pub fn repository_template(&self) -> (r: &'static str)
        ensures
            r@ == self.spec_repository_template(),
    {
        match self {
            Persistence::JpaRelational => "repository/jpa.java.tera",
            Persistence::MongoDb => "repository/mongo.java.tera",
        }
    }

    pub open spec fn spec_repository_base_class(self) -> Seq<char> {
        match self {
            Persistence::JpaRelational => "JpaRepository"@,
            Persistence::MongoDb => "MongoRepository"@,
        }
    }

    /// The Spring Data interface the repository extends.
    pub fn repository_base_class(&self) -> (r: &'static str)
        ensures
            r@ == self.spec_repository_base_class(),
    {
        match self {
            Persistence::JpaRelational => "JpaRepository",
            Persistence::MongoDb => "MongoRepository",
        }
    }

    pub open spec fn spec_id_type(self) -> Seq<char> {
        match self {
            Persistence::JpaRelational => "Long"@,
            Persistence::MongoDb => "String"@,
        }
    }

    /// The Java type of the entity's identifier.
    pub fn id_type(&self) -> (r: &'static str)
        ensures
            r@ == self.spec_id_type(),
    {
        match self {
            Persistence::JpaRelational => "Long",
            Persistence::MongoDb => "String",
        }
    }
}

} // verus!
