pub mod mandelbrot;
