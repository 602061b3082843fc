pub mod modes;
pub mod codeword;
pub mod text;
pub mod provider;
pub mod settings;
pub mod pipeline;
pub mod paste;
pub mod session;
