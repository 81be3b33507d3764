//! Credential validation core: self-validating domain values, the two port
//! boundaries (secret store and password verifier), and the orchestration
//! service that looks a user up by name and checks the presented password
//! against the stored hash.

pub mod basic_auth;
pub mod domain;
pub mod hash;
pub mod mapper;
pub mod namespace;
pub mod port;
pub mod service;
pub mod store;
pub mod text;
pub mod version;

pub use basic_auth::BasicAuthError;
pub use basic_auth::PasswordDecoded;
pub use basic_auth::PasswordEncoded;
pub use domain::Credential;
pub use domain::LabelKey;
pub use domain::LabelValue;
pub use domain::Password;
pub use domain::PasswordHash;
pub use domain::RetrievePassword;
pub use domain::SecretLabel;
pub use domain::UserSecret;
pub use domain::UserSecrets;
pub use domain::Username;
pub use domain::ValidationError;
pub use hash::Argon2Adapter;
pub use hash::FixedVerifier;
pub use hash::HashError;
pub use mapper::KubeSecret;
pub use mapper::KubernetesMapper;
pub use namespace::Namespace;
pub use port::OutgoingArgon2HashPort;
pub use port::OutgoingKubernetesPort;
pub use port::PortError;
pub use service::AuthError;
pub use service::AuthService;
pub use store::InMemorySecretStore;
pub use text::is_space_char;
pub use text::trimmed_spec;
pub use version::CommitInfo;
pub use version::VersionInfo;
pub use version::get_version_string;
pub use version::version;
