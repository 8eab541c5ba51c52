//! What a handled request yields: a rendered page, a redirect, or an error,
//! together with the status code and template that the HTTP layer must use.
use vstd::prelude::*;

use crate::farmacia::Farmacia;
use crate::medicamento::Medicamento;

verus! {

/// A page to render: the template identifier and the records bound into its
/// context are fixed by the variant.
pub enum Pagina {
    Inicio,
    Version,
    ListaFarmacias(Vec<Farmacia>),
    CrearFarmacia,
    EditarFarmacia(Farmacia),
    ListaMedicamentos(Vec<Medicamento>),
    CrearMedicamento,
    EditarMedicamento(Medicamento),
}

impl Pagina {
    pub open spec fn plantilla_vista(&self) -> Seq<char> {
        match self {
            Pagina::Inicio => "inicio.html"@,
            Pagina::Version => "version.html"@,
            Pagina::ListaFarmacias(_) => "farmacias/F-mostrar.html"@,
            Pagina::CrearFarmacia => "farmacias/F-crear.html"@,
            Pagina::EditarFarmacia(_) => "farmacias/F-editar.html"@,
            Pagina::ListaMedicamentos(_) => "medicamentos/M-mostrar.html"@,
            Pagina::CrearMedicamento => "medicamentos/M-crear.html"@,
            Pagina::EditarMedicamento(_) => "medicamentos/M-editar.html"@,
        }
    }

    /// The template identifier handed to the renderer.
    pub fn plantilla(&self) -> (r: &str)
        ensures
            r@ == self.plantilla_vista(),
    {
        match self {
            Pagina::Inicio => "inicio.html",
            Pagina::Version => "version.html",
            Pagina::ListaFarmacias(_) => "farmacias/F-mostrar.html",
            Pagina::CrearFarmacia => "farmacias/F-crear.html",
            Pagina::EditarFarmacia(_) => "farmacias/F-editar.html",
            Pagina::ListaMedicamentos(_) => "medicamentos/M-mostrar.html",
            Pagina::CrearMedicamento => "medicamentos/M-crear.html",
            Pagina::EditarMedicamento(_) => "medicamentos/M-editar.html",
        }
    }

    pub open spec fn clave_contexto_vista(&self) -> Seq<char> {
        match self {
            Pagina::ListaFarmacias(_) => "farmacias"@,
            Pagina::EditarFarmacia(_) => "farmacia"@,
            Pagina::ListaMedicamentos(_) => "medicamentos"@,
            Pagina::EditarMedicamento(_) => "medicamento"@,
            _ => ""@,
        }
    }

    /// The context key under which the page's records are bound; empty for
    /// the pages rendered over an empty context.
    pub fn clave_contexto(&self) -> (r: &str)
        ensures
            r@ == self.clave_contexto_vista(),
    {
        match self {
            Pagina::ListaFarmacias(_) => "farmacias",
            Pagina::EditarFarmacia(_) => "farmacia",
            Pagina::ListaMedicamentos(_) => "medicamentos",
            Pagina::EditarMedicamento(_) => "medicamento",
            _ => "",
        }
    }
}

/// The outcome of one handled request.
pub enum Respuesta {
    /// Render the page and answer with it.
    Vista(Pagina),
    /// See-other: answer with the given location.
    Redireccion(String),
    /// The submission or the path parameter was malformed.
    ErrorCliente(String),
    /// No route matches the verb and path.
    NoEncontrada,
    /// A store failure ended the request; its detail is surfaced.
    ErrorServidor(String),
}

impl Respuesta {
    pub open spec fn codigo_vista(&self) -> int {
        match self {
            Respuesta::Vista(_) => 200,
            Respuesta::Redireccion(_) => 303,
            Respuesta::ErrorCliente(_) => 400,
            Respuesta::NoEncontrada => 404,
            Respuesta::ErrorServidor(_) => 500,
        }
    }

    /// The HTTP status code of the outcome.
    pub fn codigo_estado(&self) -> (c: u16)
        ensures
            c as int == self.codigo_vista(),
    {
        match self {
            Respuesta::Vista(_) => 200,
            Respuesta::Redireccion(_) => 303,
            Respuesta::ErrorCliente(_) => 400,
            Respuesta::NoEncontrada => 404,
            Respuesta::ErrorServidor(_) => 500,
        }
    }
}

} // verus!
