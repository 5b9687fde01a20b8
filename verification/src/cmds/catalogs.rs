use crate::metastore::{Catalog, CatalogView, CreateCatalogRequest, GetCatalogRequest, Request, RequestView};
use vstd::prelude::*;
use vstd::std_specs::convert::FromSpecImpl;

verus! {

/// Get a single catalog by name.
#[derive(Debug, Clone, PartialEq, Eq)]
pub struct GetCatalog {
    pub name: String,
}

impl From<GetCatalog> for GetCatalogRequest {
    fn from(cmd: GetCatalog) -> (r: GetCatalogRequest) {
        GetCatalogRequest { name: Some(cmd.name) }
    }
}

impl FromSpecImpl<GetCatalog> for GetCatalogRequest {
    open spec fn obeys_from_spec() -> bool {
        true
    }

    open spec fn from_spec(cmd: GetCatalog) -> GetCatalogRequest {
        GetCatalogRequest { name: Some(cmd.name) }
    }
}

impl GetCatalog {
    /// The call that fetches the catalog.
    pub open spec fn spec_call(self) -> RequestView {
        RequestView::GetCatalog { catalog_name: Some(self.name@) }
    }

    pub fn call(&self) -> (r: Request)
        ensures
            r@ == self.spec_call(),
    {
        let cmd = GetCatalog { name: self.name.clone() };
        Request::GetCatalog(GetCatalogRequest::from(cmd))
    }
}

/// Get a list of all catalogs in metastore.
#[derive(Debug, Clone, Copy, PartialEq, Eq)]
pub struct GetCatalogs;

impl GetCatalogs {
    /// The call that lists the catalogs.
    pub fn call(&self) -> (r: Request)
        ensures
            r@ == RequestView::GetCatalogs,
    {
        Request::GetCatalogs
    }
}

/// Create a catalog.
#[derive(Debug, Clone, PartialEq, Eq)]
pub struct CreateCatalog {
    pub name: String,
    pub location_uri: Option<String>,
    pub description: Option<String>,
}

impl From<CreateCatalog> for Catalog {
    fn from(cmd: CreateCatalog) -> (r: Catalog) {
        Catalog { name: Some(cmd.name), description: cmd.description, location_uri: cmd.location_uri }
    }
}

impl FromSpecImpl<CreateCatalog> for Catalog {
    open spec fn obeys_from_spec() -> bool {
        true
    }

    open spec fn from_spec(cmd: CreateCatalog) -> Catalog {
        Catalog { name: Some(cmd.name), description: cmd.description, location_uri: cmd.location_uri }
    }
}

impl From<CreateCatalog> for CreateCatalogRequest {
    fn from(cmd: CreateCatalog) -> (r: CreateCatalogRequest) {
        CreateCatalogRequest { catalog: Some(Catalog::from(cmd)) }
    }
}

impl FromSpecImpl<CreateCatalog> for CreateCatalogRequest {
    open spec fn obeys_from_spec() -> bool {
        true
    }

    open spec fn from_spec(cmd: CreateCatalog) -> CreateCatalogRequest {
        CreateCatalogRequest { catalog: Some(<Catalog as vstd::std_specs::convert::FromSpec<CreateCatalog>>::from_spec(cmd)) }
    }
}

impl CreateCatalog {
    /// The catalog that the command creates.
    pub open spec fn spec_catalog(self) -> CatalogView {
        CatalogView {
            name: Some(self.name@),
            description: self.description.deep_view(),
            location_uri: self.location_uri.deep_view(),
        }
    }

    /// The call that creates the catalog.
    pub open spec fn spec_call(self) -> RequestView {
        RequestView::CreateCatalog { catalog: Some(self.spec_catalog()) }
    }

    pub fn call(&self) -> (r: Request)
        ensures
            r@ == self.spec_call(),
    {
        let cmd = CreateCatalog {
            name: self.name.clone(),
            location_uri: self.location_uri.clone(),
            description: self.description.clone(),
        };
        Request::CreateCatalog(CreateCatalogRequest::from(cmd))
    }
}

} // verus!
