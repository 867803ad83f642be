pub mod rss_reader;
