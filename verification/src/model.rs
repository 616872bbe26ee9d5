use vstd::prelude::*;

verus! {

/// Mathematical image of an extracted enumeration type.
pub ghost struct GEnumeration {
    pub id: Seq<char>,
    pub name: Seq<char>,
    pub index: nat,
    pub base: Seq<char>,
    pub members: Seq<Seq<char>>,
    pub documentation: Seq<char>,
}

/// One extracted enumeration: a simple type restricted to a fixed set of
/// string values. `members` keeps document order; `documentation` is empty
/// when the simple type carries no annotation.
#[derive(Debug, Clone, PartialEq, Eq)]
pub struct Enumeration {
    pub id: String,
    pub name: String,
    pub index: usize,
    pub base: String,
    pub members: Vec<String>,
    pub documentation: String,
}

impl View for Enumeration {
    type V = GEnumeration;

    open spec fn view(&self) -> GEnumeration {
        GEnumeration {
            id: self.id@,
            name: self.name@,
            index: self.index as nat,
            base: self.base@,
            members: self.members@.map_values(|m: String| m@),
            documentation: self.documentation@,
        }
    }
}

/// The simple-type categories this core distinguishes; only enumerations
/// are extracted.
#[derive(Debug, PartialEq, Eq)]
pub enum SimpleType {
    Enum(Enumeration),
}

impl View for SimpleType {
    type V = GEnumeration;

    open spec fn view(&self) -> GEnumeration {
        match self {
            SimpleType::Enum(e) => e@,
        }
    }
}

/// Tagged union over definition categories; this core populates only the
/// simple variant.
#[derive(Debug, PartialEq, Eq)]
pub enum TypeDefinition {
    Simple(SimpleType),
}

impl View for TypeDefinition {
    type V = GEnumeration;

    open spec fn view(&self) -> GEnumeration {
        match self {
            TypeDefinition::Simple(s) => s@,
        }
    }
}

/// The parsed model of one schema document: the extracted type definitions,
/// in no particular order. Callers that need a deterministic order sort by
/// `index` themselves.
#[derive(Debug, PartialEq, Eq)]
pub struct MusicXSD {
    pub type_definitions: Vec<TypeDefinition>,
}

impl View for MusicXSD {
    type V = Seq<GEnumeration>;

    open spec fn view(&self) -> Seq<GEnumeration> {
        self.type_definitions@.map_values(|t: TypeDefinition| t@)
    }
}

impl MusicXSD {
    pub fn new(type_definitions: Vec<TypeDefinition>) -> (r: Self)
        ensures
            r.type_definitions == type_definitions,
    {
        MusicXSD { type_definitions }
    }
}

} // verus!
