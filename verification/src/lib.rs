//! Verified building blocks for a collection of small object-oriented
//! design-pattern demonstrations.  The centrepiece is the notification
//! registry used by the observer and mediator demonstrations: a publisher
//! keeps non-owning handles to its subscribers, delivers events to every
//! subscriber that is still alive, and lazily prunes handles whose referent
//! has been destroyed.

pub mod abstract_factory;
pub mod adapter;
pub mod arena;
pub mod bridge;
pub mod builder;
pub mod chain;
pub mod colleagues;
pub mod command;
pub mod composite;
pub mod decorator;
pub mod facade;
pub mod factory;
pub mod factory_method;
pub mod flyweight;
pub mod mediator;
pub mod memento;
pub mod observer;
pub mod prototype;
pub mod proxy;
mod sequences;
pub mod singleton;
pub mod state;
pub mod strategy;
pub mod template;
pub mod template_method;
pub mod visitor;
