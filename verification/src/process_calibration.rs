//! Reduction of raw calibration samples to per-sensor minima, maxima and
//! detection thresholds, the threshold standing halfway between the two.

use vstd::prelude::*;

verus! {

/// Why a calibration data set was rejected.
#[derive(Clone, Copy, Debug, PartialEq, Eq, Structural)]
pub enum CalibrationError {
    InvalidSensorCount,
    EmptySamples,
    InconsistentSamples,
}

/// Every sample row holds one value per sensor.
pub open spec fn consistent_samples(data: Seq<Seq<i32>>, num_sensors: int) -> bool {
    forall|i: int| 0 <= i < data.len() ==> #[trigger] data[i].len() == num_sensors
}

/// The smallest value of column `j` over all rows; the accumulator
/// starts from the largest representable value.
pub open spec fn col_min(data: Seq<Seq<i32>>, j: int) -> int
    decreases data.len(),
{
    if data.len() == 0 {
        i32::MAX as int
    } else {
        let prev = col_min(data.drop_last(), j);
        if data.last()[j] < prev {
            data.last()[j] as int
        } else {
            prev
        }
    }
}

/// The largest value of column `j` over all rows, starting from the
/// smallest representable value.
pub open spec fn col_max(data: Seq<Seq<i32>>, j: int) -> int
    decreases data.len(),
{
    if data.len() == 0 {
        i32::MIN as int
    } else {
        let prev = col_max(data.drop_last(), j);
        if data.last()[j] > prev {
            data.last()[j] as int
        } else {
            prev
        }
    }
}

/// The threshold halfway between two values, rounded toward zero as the
/// machine's signed division rounds.
pub open spec fn midpoint(low: int, high: int) -> int {
    if low + high >= 0 {
        (low + high) / 2
    } else {
        -((-(low + high)) / 2)
    }
}

/// No column's minimum and maximum add up beyond the `i32` range, so the
/// threshold computation cannot overflow.
pub open spec fn calibration_sums_fit(data: Seq<Seq<i32>>, num_sensors: int) -> bool {
    forall|j: int|
        0 <= j < num_sensors ==> i32::MIN <= #[trigger] col_min(data, j) + col_max(data, j)
            <= i32::MAX
}

/// Reduce calibration samples to per-sensor minima, maxima and midpoint
/// thresholds. An empty sample set and a row of the wrong width are
/// rejected, in that order; a valid set always yields the three vectors.
pub fn process_calibration(samples: &[Vec<i32>], num_sensors: usize) -> (result: Result<
    (Vec<i32>, Vec<i32>, Vec<i32>),
    CalibrationError,
>)
    requires
        samples.deep_view().len() > 0 && consistent_samples(
            samples.deep_view(),
            num_sensors as int,
        ) ==> calibration_sums_fit(samples.deep_view(), num_sensors as int),
    ensures
        result is Err <==> samples.deep_view().len() == 0 || !consistent_samples(
            samples.deep_view(),
            num_sensors as int,
        ),
        samples.deep_view().len() == 0 ==> result == Err::<
            (Vec<i32>, Vec<i32>, Vec<i32>),
            CalibrationError,
        >(CalibrationError::EmptySamples),
        samples.deep_view().len() > 0 && !consistent_samples(
            samples.deep_view(),
            num_sensors as int,
        ) ==> result == Err::<(Vec<i32>, Vec<i32>, Vec<i32>), CalibrationError>(
            CalibrationError::InconsistentSamples,
        ),
        result matches Ok((min_values, max_values, thresholds)) ==> {
            &&& min_values@.len() == num_sensors
            &&& max_values@.len() == num_sensors
            &&& thresholds@.len() == num_sensors
            &&& forall|j: int|
                0 <= j < num_sensors ==> #[trigger] min_values@[j] == col_min(
                    samples.deep_view(),
                    j,
                )
            &&& forall|j: int|
                0 <= j < num_sensors ==> #[trigger] max_values@[j] == col_max(
                    samples.deep_view(),
                    j,
                )
            &&& forall|j: int|
                0 <= j < num_sensors ==> #[trigger] thresholds@[j] == midpoint(
                    col_min(samples.deep_view(), j),
                    col_max(samples.deep_view(), j),
                )
        },
{
    let ghost data = samples.deep_view();

    if samples.len() == 0 {
        return Err(CalibrationError::EmptySamples);
    }

    let mut row: usize = 0;
    while row < samples.len()
        invariant
            data == samples.deep_view(),
            row <= data.len(),
            forall|i: int| 0 <= i < row ==> #[trigger] data[i].len() == num_sensors,
        decreases samples.len() - row,
    {
        if samples[row].len() != num_sensors {
            proof {
                assert(data[row as int] == samples@[row as int].deep_view());
                assert(data[row as int].len() != num_sensors);
            }
            return Err(CalibrationError::InconsistentSamples);
        }
        row += 1;
    }

    let mut min_values: Vec<i32> = Vec::new();
    let mut max_values: Vec<i32> = Vec::new();
    let mut thresholds: Vec<i32> = Vec::new();

    let mut j: usize = 0;
    while j < num_sensors
        invariant
            data == samples.deep_view(),
            data.len() > 0,
            consistent_samples(data, num_sensors as int),
            calibration_sums_fit(data, num_sensors as int),
            j <= num_sensors,
            min_values@.len() == j,
            max_values@.len() == j,
            thresholds@.len() == j,
            forall|k: int| 0 <= k < j ==> #[trigger] min_values@[k] == col_min(data, k),
            forall|k: int| 0 <= k < j ==> #[trigger] max_values@[k] == col_max(data, k),
            forall|k: int|
                0 <= k < j ==> #[trigger] thresholds@[k] == midpoint(
                    col_min(data, k),
                    col_max(data, k),
                ),
        decreases num_sensors - j,
    {
        let mut column_min: i32 = i32::MAX;
        let mut column_max: i32 = i32::MIN;
        let mut r: usize = 0;
        while r < samples.len()
            invariant
                data == samples.deep_view(),
                consistent_samples(data, num_sensors as int),
                j < num_sensors,
                r <= data.len(),
                column_min == col_min(data.take(r as int), j as int),
                column_max == col_max(data.take(r as int), j as int),
            decreases samples.len() - r,
        {
            proof {
                assert(data.take(r + 1).drop_last() =~= data.take(r as int));
                assert(data.take(r + 1).last() == data[r as int]);
                assert(data[r as int] == samples@[r as int].deep_view());
                assert(data[r as int].len() == num_sensors);
            }
            let value = samples[r][j];
            proof {
                assert(value == data[r as int][j as int]);
            }
            if value < column_min {
                column_min = value;
            }
            if value > column_max {
                column_max = value;
            }
            r += 1;
        }
        proof {
            assert(data.take(data.len() as int) =~= data);
        }

        min_values.push(column_min);
        max_values.push(column_max);
        let sum: i32 = column_min + column_max;
        thresholds.push(sum / 2);
        j += 1;
    }

    Ok((min_values, max_values, thresholds))
}

} // verus!
