pub mod bepinex;
