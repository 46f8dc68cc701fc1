//! Verified core of the loanMe web API: user accounts and passwords,
//! sessions, confirmation mails, loans, loan proposals, payments and the
//! request decisions of the HTTP handlers.
#![allow(non_snake_case)]

pub mod errors;
pub mod usuario;
pub mod misc;
pub mod redis_server;
pub mod session;
pub mod perfil_crediticio;
pub mod prestamo;
pub mod prestamo_propuesta;
pub mod prestamo_txn;
pub mod mailbox;
pub mod mail;
pub mod auth;
pub mod login;
pub mod register;
pub mod routes;
pub mod accounts;
pub mod profile;
pub mod loans;
pub mod user_info;
pub mod payments;
