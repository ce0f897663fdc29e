pub mod gql;
