//! The parsed content of one descriptor file.
use vstd::prelude::*;
use crate::license::{LicenseInfo, LicenseModel};

verus! {

/// The `product` table: its presence makes the descriptor a product.
#[derive(Debug)]
pub struct ProductName {
    pub name: String,
}

/// The `dependency` table.
#[derive(Debug)]
pub struct DependencyInfo {
    pub name: String,
    pub homepage: String,
    pub license: LicenseInfo,
    pub addons: Option<Vec<LicenseInfo>>,
    pub spdx: String,
}

/// One descriptor: a product with links to further descriptors, or a dependency.
#[derive(Debug)]
pub struct Descriptor {
    pub product: Option<ProductName>,
    pub dependency: Option<DependencyInfo>,
    /// Link names and the paths they point to, in declaration order.
    pub links: Option<Vec<(String, String)>>,
}

impl DependencyInfo {
    /// The license references in the order their texts go in the report: the
    /// license, then each addon.
    pub open spec fn references(&self) -> Seq<LicenseModel> {
        seq![self.license@] + match self.addons {
            Some(a) => a@.map_values(|l: LicenseInfo| l@),
            None => Seq::empty(),
        }
    }
}

impl Descriptor {
    /// The paths of the links, in declaration order.
    pub open spec fn link_targets(&self) -> Seq<Seq<char>> {
        match self.links {
            Some(l) => l@.map_values(|kv: (String, String)| kv.1@),
            None => Seq::empty(),
        }
    }

    /// Neither a product nor a dependency.
    pub open spec fn is_malformed(&self) -> bool {
        self.product is None && self.dependency is None
    }
}

} // verus!
