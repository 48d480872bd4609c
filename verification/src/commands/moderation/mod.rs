pub mod prevent;
