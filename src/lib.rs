//! Signal synthesis for a digital-audio sampling demonstration: parameter
//! validation, Nyquist ratio, sample and reference time grids, amplitude
//! quantization, subplot titles and page placement, all over exact integer
//! models.
pub mod layout;
pub mod params;
pub mod quantize;
pub mod series;
pub mod title;
