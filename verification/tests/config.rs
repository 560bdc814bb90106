use llama_gateway::config::{
    credential_header_name, download_url, listen_address, model_dir_suffix, model_name,
    models_env_var, runtime_path, secret_env_var,
};

#[test]
fn fixed_configuration_values() {
    assert_eq!(model_name(), "llama3:8b");
    assert_eq!(runtime_path(), "ollama");
    assert_eq!(
        download_url(),
        "https://ollama.com/download/ollama-linux-amd64"
    );
    assert_eq!(secret_env_var(), "RENDER_KEY");
    assert_eq!(models_env_var(), "OLLAMA_MODELS");
    assert_eq!(model_dir_suffix(), ".ollama/models");
    assert_eq!(credential_header_name(), "Authorization");
    assert_eq!(listen_address(), "0.0.0.0:8080");
}
