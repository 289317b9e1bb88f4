//! Un livre à pages, et la logique d'un petit café : les boissons commandées,
//! la machine à espresso et l'arrivée des clients.

pub mod livre;

pub mod boisson;
pub mod jeu;

pub use livre::Livre;
