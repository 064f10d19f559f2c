//! Canteens: lookup by id and the canteens nearest to a position.
//!
//! A canteen's location and its distance from a position are coordinates,
//! which this library does not compute with: they are the type parameters
//! `L` (location) and `D` (distance), carried through unchanged.
use vstd::prelude::*;
use crate::text::{append_decimal, decimal};
use crate::v1::{query_failed_error, ApiError, ApiErrorView, StatusCode};

verus! {

#[derive(Debug)]
pub struct Canteen<L, D> {
    pub id: i32,
    pub name: String,
    pub city_id: i32,
    pub city_name: String,
    pub location: L,
    pub distance: Option<D>,
}

pub open spec fn canteen_not_found_error(id: i32) -> ApiErrorView {
    ApiErrorView {
        status: StatusCode::NotFound,
        desc: "No canteen found with id '"@ + decimal(id as int) + "'"@,
        details: None,
    }
}

impl<L, D> Canteen<L, D> {
    /// The canteen with id `id`, from the rows of the query for it: the
    /// first row, without a distance.
    pub fn get_by_id(id: i32, rows: Result<Vec<Canteen<L, D>>, String>) -> (r: Result<
        Canteen<L, D>,
        ApiError,
    >)
        ensures
            match rows {
                Err(d) => r matches Err(e) && e@ == query_failed_error(d@),
                Ok(v) => if v.len() > 0 {
                    r matches Ok(c) && c == (Canteen { distance: None, ..v@[0] })
                } else {
                    r matches Err(e) && e@ == canteen_not_found_error(id)
                },
            },
    {
        match rows {
            Err(d) => Err(ApiError::query_failed(d)),
            Ok(mut v) => {
                if v.len() > 0 {
                    let row = v.remove(0);
                    Ok(
                        Canteen {
                            id: row.id,
                            name: row.name,
                            city_id: row.city_id,
                            city_name: row.city_name,
                            location: row.location,
                            distance: None,
                        },
                    )
                } else {
                    let mut desc = String::from_str("No canteen found with id '");
                    append_decimal(&mut desc, id as i64);
                    desc.append("'");
                    Err(ApiError::new(StatusCode::NotFound, desc))
                }
            },
        }
    }

    /// The canteens nearest to a position, from the rows of the query for
    /// them (which orders them by distance): all of them, in that order.
    pub fn get_nearest(rows: Result<Vec<Canteen<L, D>>, String>) -> (r: Result<
        Vec<Canteen<L, D>>,
        ApiError,
    >)
        ensures
            match rows {
                Err(d) => r matches Err(e) && e@ == query_failed_error(d@),
                Ok(v) => r matches Ok(data) && data@ == v@,
            },
    {
        match rows {
            Err(d) => Err(ApiError::query_failed(d)),
            Ok(v) => Ok(v),
        }
    }
}

} // verus!
