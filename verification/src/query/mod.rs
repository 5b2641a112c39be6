//! Loading RDF and running SPARQL queries on it.

pub mod sparql;

pub use sparql::{
    format_term, Elapsed, QueryAnswer, QueryEngine, QueryOutput, QueryResultsData, RdfSyntax, RdfTerm, SparqlEngine,
};
