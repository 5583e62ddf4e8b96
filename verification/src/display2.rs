pub mod rexard_images;
