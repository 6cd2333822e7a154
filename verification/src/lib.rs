//! A weekly report of a repository's pull requests, by mail.
//!
//! One run goes through four steps, each of them a part of this library:
//! build the search string for the last seven days ([`gh::query`]), read the
//! reply of the search endpoint ([`gh::client`]), list or count the pull
//! requests it holds ([`gh::aggregate`]), and render and compose the mail
//! that reports them ([`email`]). The exchanges themselves, with the
//! endpoint and with the SMTP relay, are left to the program that uses the
//! library.

mod detail;
pub mod email;
pub mod gh;
pub mod seqs;
