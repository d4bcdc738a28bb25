//! The logic of the graphical front end: the code editor's files, the
//! colouring of Logo code and the decoding of pictures.
pub mod editor;
pub mod highlighter;
pub mod picture;
