pub mod alexa;
