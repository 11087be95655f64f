pub mod time_util;
