//! The whole generation run: from a schema document to the text of every
//! generated module.

use vstd::prelude::*;
use vstd::string::*;

use crate::emit::{
    functions_text, parameter_types_text, parametrized_functions_text, render_functions,
    render_parameter_types, render_parametrized_functions, render_types, types_text,
};
use crate::functions::{
    collect_functions_for, collected_functions, Convention, FunctionDefinitionArgs,
    GenerationError,
};
use crate::parameters::{collect_parameter_types_for, collected_aggregates};
use crate::schema::{Schema, SchemaModel};
use crate::types::{collect_types_for, collected_definitions};

verus! {

/// The text of the generated modules.
#[derive(Debug, Clone, PartialEq, Eq)]
pub struct Artifacts {
    /// The value types of requests and responses.
    pub types: String,
    /// The options types.
    pub parameter_types: String,
    /// The direct calls that block.
    pub functions: String,
    /// The convenience calls that block.
    pub parametrized_functions: String,
    /// The direct calls that suspend.
    pub async_functions: String,
    /// The convenience calls that suspend.
    pub async_parametrized_functions: String,
}

/// The mathematical content of [`Artifacts`].
pub struct ArtifactsView {
    pub types: Seq<char>,
    pub parameter_types: Seq<char>,
    pub functions: Seq<char>,
    pub parametrized_functions: Seq<char>,
    pub async_functions: Seq<char>,
    pub async_parametrized_functions: Seq<char>,
}

impl View for Artifacts {
    type V = ArtifactsView;

    open spec fn view(&self) -> ArtifactsView {
        ArtifactsView {
            types: self.types@,
            parameter_types: self.parameter_types@,
            functions: self.functions@,
            parametrized_functions: self.parametrized_functions@,
            async_functions: self.async_functions@,
            async_parametrized_functions: self.async_parametrized_functions@,
        }
    }
}

/// The convention of calls that block the calling thread.
pub open spec fn blocking_convention(base_url: Seq<char>) -> Convention {
    Convention {
        is_async: false,
        client_parameter: "client: &reqwest::blocking::Client"@,
        base_url,
    }
}

/// The convention of calls that suspend.
pub open spec fn suspending_convention(base_url: Seq<char>) -> Convention {
    Convention { is_async: true, client_parameter: "client: &reqwest::Client"@, base_url }
}

/// What a generation run over `schema` gives: the modules for both
/// conventions, rendered from the same definitions, or the error of the
/// first route that stops it.
pub open spec fn generated(schema: SchemaModel) -> Result<ArtifactsView, GenerationError> {
    let blocking = blocking_convention(schema.servers[0]);
    let suspending = suspending_convention(schema.servers[0]);
    match collected_functions(schema.paths, blocking, schema.paths.len()) {
        Err(e) => Err(e),
        Ok(functions) => match collected_functions(schema.paths, suspending, schema.paths.len()) {
            Err(e) => Err(e),
            Ok(async_functions) => Ok(
                ArtifactsView {
                    types: types_text(collected_definitions(schema.paths, schema.paths.len())),
                    parameter_types: parameter_types_text(
                        collected_aggregates(schema.paths, schema.paths.len()),
                    ),
                    functions: functions_text(functions, blocking),
                    parametrized_functions: parametrized_functions_text(functions, blocking),
                    async_functions: functions_text(async_functions, suspending),
                    async_parametrized_functions: parametrized_functions_text(
                        async_functions,
                        suspending,
                    ),
                },
            ),
        },
    }
}

/// Generates the client for `schema`. The first server of the document is
/// the base address of every call.
pub fn generate(schema: &Schema) -> (result: Result<Artifacts, GenerationError>)
    requires
        schema@.servers.len() > 0,
    ensures
        match result {
            Ok(artifacts) => generated(schema@) == Ok::<_, GenerationError>(artifacts@),
            Err(e) => generated(schema@) == Err::<ArtifactsView, _>(e),
        },
{
    proof {
        assert(schema@.servers.len() == schema.servers.0@.len());
        assert(schema@.servers[0] == schema.servers.0@[0].url@);
    }
    let blocking = FunctionDefinitionArgs {
        is_async: false,
        client_parameter: "client: &reqwest::blocking::Client".to_owned(),
        base_url: schema.servers.0[0].url.clone(),
    };
    let suspending = FunctionDefinitionArgs {
        is_async: true,
        client_parameter: "client: &reqwest::Client".to_owned(),
        base_url: schema.servers.0[0].url.clone(),
    };
    let functions = match collect_functions_for(schema, &blocking) {
        Err(e) => {
            return Err(e);
        },
        Ok(functions) => functions,
    };
    let async_functions = match collect_functions_for(schema, &suspending) {
        Err(e) => {
            return Err(e);
        },
        Ok(functions) => functions,
    };
    let needed_types = collect_types_for(schema);
    let parameter_types = collect_parameter_types_for(schema);
    Ok(
        Artifacts {
            types: render_types(&needed_types),
            parameter_types: render_parameter_types(&parameter_types),
            functions: render_functions(&functions, &blocking),
            parametrized_functions: render_parametrized_functions(&functions, &blocking),
            async_functions: render_functions(&async_functions, &suspending),
            async_parametrized_functions: render_parametrized_functions(
                &async_functions,
                &suspending,
            ),
        },
    )
}

} // verus!
