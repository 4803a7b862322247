use vstd::prelude::*;

verus! {

/// The kind of one descriptor, that is of one level of a declaration's path.
#[derive(Debug, Clone, PartialEq)]
pub enum DescriptorKind {
    /// `name/`
    Namespace,
    /// `name#`
    Type,
    /// `name.`
    Term,
    /// `name(<disambiguator>?).`
    Method(Option<String>),
    /// `[name]`
    TypeParameter,
    /// `(name)`
    Parameter,
    /// `name:`
    Meta,
    /// `name!`
    Macro,
}

/// One level of a global symbol's fully-qualified path.
#[derive(Debug, Clone, PartialEq)]
pub struct Descriptor {
    pub name: String,
    pub kind: DescriptorKind,
}

/// The package part of a global symbol; a field written `.` is absent.
pub struct Package {
    pub manager: Option<String>,
    pub name: Option<String>,
    pub version: Option<String>,
}

/// A parsed symbol: a file-local binding or a package-qualified declaration.
pub enum ScipSymbol {
    Local { id: String },
    Global { scheme: String, package: Package, descriptors: Vec<Descriptor> },
}

/// Mathematical value of a `DescriptorKind`.
pub enum DescriptorKindModel {
    Namespace,
    Type,
    Term,
    Method(Option<Seq<char>>),
    TypeParameter,
    Parameter,
    Meta,
    Macro,
}

/// Mathematical value of a `Descriptor`.
pub struct DescriptorModel {
    pub name: Seq<char>,
    pub kind: DescriptorKindModel,
}

/// Mathematical value of a `Package`.
pub struct PackageModel {
    pub manager: Option<Seq<char>>,
    pub name: Option<Seq<char>>,
    pub version: Option<Seq<char>>,
}

/// Mathematical value of a `ScipSymbol`.
pub enum SymbolModel {
    Local { id: Seq<char> },
    Global { scheme: Seq<char>, package: PackageModel, descriptors: Seq<DescriptorModel> },
}

pub open spec fn opt_string_view(o: Option<String>) -> Option<Seq<char>> {
    match o {
        Some(s) => Some(s@),
        None => None,
    }
}

impl View for DescriptorKind {
    type V = DescriptorKindModel;

    open spec fn view(&self) -> DescriptorKindModel {
        match self {
            DescriptorKind::Namespace => DescriptorKindModel::Namespace,
            DescriptorKind::Type => DescriptorKindModel::Type,
            DescriptorKind::Term => DescriptorKindModel::Term,
            DescriptorKind::Method(d) => DescriptorKindModel::Method(opt_string_view(*d)),
            DescriptorKind::TypeParameter => DescriptorKindModel::TypeParameter,
            DescriptorKind::Parameter => DescriptorKindModel::Parameter,
            DescriptorKind::Meta => DescriptorKindModel::Meta,
            DescriptorKind::Macro => DescriptorKindModel::Macro,
        }
    }
}

impl View for Descriptor {
    type V = DescriptorModel;

    open spec fn view(&self) -> DescriptorModel {
        DescriptorModel { name: self.name@, kind: self.kind@ }
    }
}

impl View for Package {
    type V = PackageModel;

    open spec fn view(&self) -> PackageModel {
        PackageModel {
            manager: opt_string_view(self.manager),
            name: opt_string_view(self.name),
            version: opt_string_view(self.version),
        }
    }
}

/// The models of a sequence of descriptors, in order.
pub open spec fn descriptors_view(ds: Seq<Descriptor>) -> Seq<DescriptorModel> {
    ds.map_values(|d: Descriptor| d@)
}

impl View for ScipSymbol {
    type V = SymbolModel;

    open spec fn view(&self) -> SymbolModel {
        match self {
            ScipSymbol::Local { id } => SymbolModel::Local { id: id@ },
            ScipSymbol::Global { scheme, package, descriptors } => SymbolModel::Global {
                scheme: scheme@,
                package: package@,
                descriptors: descriptors_view(descriptors@),
            },
        }
    }
}

} // verus!
