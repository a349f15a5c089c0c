//! A GraphQL gateway: admission of HTTP requests and WebSocket connections,
//! a JSON body codec, and the API's resolvers.
pub mod gateway;
pub mod token;
pub mod simdjson;
pub mod users;
pub mod graphql;
