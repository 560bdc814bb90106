//! The fixed configuration of the system: the single hardcoded model, the
//! runtime binary's location and download source, the environment variable
//! names, the credential header and the listen address. All are constants
//! for the process lifetime.

use vstd::prelude::*;

verus! {

/// The one model the gateway serves; not user-selectable.
pub fn model_name() -> (s: String)
    ensures
        s@ == "llama3:8b"@,
{
    "llama3:8b".to_owned()
}

/// The local path the runtime binary is installed to.
pub fn runtime_path() -> (s: String)
    ensures
        s@ == "ollama"@,
{
    "ollama".to_owned()
}

/// The URL the runtime binary is downloaded from.
pub fn download_url() -> (s: String)
    ensures
        s@ == "https://ollama.com/download/ollama-linux-amd64"@,
{
    "https://ollama.com/download/ollama-linux-amd64".to_owned()
}

/// The environment variable holding the shared secret.
pub fn secret_env_var() -> (s: String)
    ensures
        s@ == "RENDER_KEY"@,
{
    "RENDER_KEY".to_owned()
}

/// The environment variable that tells the runtime where to store models.
pub fn models_env_var() -> (s: String)
    ensures
        s@ == "OLLAMA_MODELS"@,
{
    "OLLAMA_MODELS".to_owned()
}

/// The model-storage directory, relative to the invoking user's home.
pub fn model_dir_suffix() -> (s: String)
    ensures
        s@ == ".ollama/models"@,
{
    ".ollama/models".to_owned()
}

/// The header the auth gate reads the credential from.
pub fn credential_header_name() -> (s: String)
    ensures
        s@ == "Authorization"@,
{
    "Authorization".to_owned()
}

/// The address the gateway binds once bootstrap has completed.
pub fn listen_address() -> (s: String)
    ensures
        s@ == "0.0.0.0:8080"@,
{
    "0.0.0.0:8080".to_owned()
}

} // verus!
