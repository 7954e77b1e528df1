pub mod aes_service;
