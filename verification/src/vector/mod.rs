pub mod vector_type;
