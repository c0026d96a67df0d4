use qognify::error::RegressionError;
use qognify::shape::{check_predict_input, check_train_inputs, forward_shape, MatShape};
use qognify::text::append_decimal;
use qognify::training::{epoch_line, vprint, EpochLoop};

#[test]
fn training_rejects_empty_dataset() {
    let x = MatShape { rows: 0, cols: 1 };
    let y = MatShape { rows: 0, cols: 1 };
    assert_eq!(check_train_inputs(x, y), Err(RegressionError::InsufficientData));
}

#[test]
fn training_rejects_single_sample() {
    let x = MatShape { rows: 1, cols: 1 };
    let y = MatShape { rows: 1, cols: 1 };
    assert_eq!(check_train_inputs(x, y), Err(RegressionError::InsufficientData));
}

#[test]
fn training_rejects_row_count_mismatch() {
    let x = MatShape { rows: 5, cols: 1 };
    let y = MatShape { rows: 4, cols: 1 };
    assert_eq!(check_train_inputs(x, y), Err(RegressionError::ShapeMismatch));
}

#[test]
fn training_rejects_wide_target() {
    let x = MatShape { rows: 5, cols: 2 };
    let y = MatShape { rows: 5, cols: 2 };
    assert_eq!(check_train_inputs(x, y), Err(RegressionError::ShapeMismatch));
}

#[test]
fn training_accepts_valid_dataset() {
    let x = MatShape { rows: 5, cols: 2 };
    let y = MatShape { rows: 5, cols: 1 };
    assert_eq!(check_train_inputs(x, y), Ok(()));
}

#[test]
fn prediction_rejects_wrong_feature_count() {
    let x = MatShape { rows: 1, cols: 3 };
    assert_eq!(check_predict_input(x, 2), Err(RegressionError::DimensionMismatch));
}

#[test]
fn prediction_accepts_matching_feature_count() {
    let x = MatShape { rows: 7, cols: 2 };
    assert_eq!(check_predict_input(x, 2), Ok(()));
}

#[test]
fn forward_shape_follows_matrix_product() {
    let x = MatShape { rows: 4, cols: 2 };
    let w = MatShape { rows: 2, cols: 1 };
    assert_eq!(forward_shape(x, w), Some(MatShape { rows: 4, cols: 1 }));
    let w_bad = MatShape { rows: 3, cols: 1 };
    assert_eq!(forward_shape(x, w_bad), None);
}

#[test]
fn epoch_loop_runs_full_budget_in_order() {
    let mut schedule = EpochLoop::new(5);
    let mut seen: Vec<usize> = Vec::new();
    while let Some(epoch) = schedule.next_epoch() {
        seen.push(epoch);
        assert_eq!(schedule.report_epoch(true), Ok(()));
    }
    assert_eq!(seen, vec![0, 1, 2, 3, 4]);
    assert!(schedule.finished());
    assert!(!schedule.halted());
    assert_eq!(schedule.completed(), 5);
    assert_eq!(schedule.budget(), 5);
}

#[test]
fn epoch_loop_halts_at_first_mismatch() {
    let mut schedule = EpochLoop::new(4);
    assert_eq!(schedule.next_epoch(), Some(0));
    assert_eq!(schedule.report_epoch(true), Ok(()));
    assert_eq!(schedule.next_epoch(), Some(1));
    assert_eq!(schedule.report_epoch(false), Err(RegressionError::ShapeMismatch));
    assert_eq!(schedule.next_epoch(), None);
    assert!(schedule.halted());
    assert!(!schedule.finished());
    assert_eq!(schedule.completed(), 1);
}

#[test]
fn epoch_loop_mismatch_on_first_epoch_completes_nothing() {
    let mut schedule = EpochLoop::new(3);
    assert_eq!(schedule.report_epoch(false), Err(RegressionError::ShapeMismatch));
    assert_eq!(schedule.completed(), 0);
    assert_eq!(schedule.next_epoch(), None);
}

#[test]
fn vprint_passes_text_through_only_when_verbose() {
    assert_eq!(vprint(String::from("Epoch: 3"), &true), Some(String::from("Epoch: 3")));
    assert_eq!(vprint(String::from("Epoch: 3"), &false), None);
}

#[test]
fn decimal_rendering_is_exact() {
    let mut s = String::from("x = ");
    append_decimal(&mut s, 907);
    assert_eq!(s, "x = 907");
    let mut z = String::new();
    append_decimal(&mut z, 0);
    assert_eq!(z, "0");
    let mut big = String::new();
    append_decimal(&mut big, 100000);
    assert_eq!(big, "100000");
}

#[test]
fn epoch_label_carries_the_index() {
    assert_eq!(epoch_line(0), "Epoch: 0");
    assert_eq!(epoch_line(42), "Epoch: 42");
    assert_eq!(epoch_line(99999), "Epoch: 99999");
}

#[test]
fn error_descriptions_are_distinct() {
    let all = [
        RegressionError::InsufficientData,
        RegressionError::ShapeMismatch,
        RegressionError::DimensionMismatch,
        RegressionError::ParseFailure,
    ];
    for e in all.iter() {
        assert!(!e.describe().is_empty());
    }
    assert_eq!(RegressionError::InsufficientData.describe(), "need at least 2 data points");
    assert_eq!(RegressionError::ShapeMismatch.describe(), "intermediate shapes disagree");
    assert_eq!(
        RegressionError::DimensionMismatch.describe(),
        "feature count differs from weight count"
    );
    assert_eq!(RegressionError::ParseFailure.describe(), "input is not a number");
    for i in 0..all.len() {
        for j in 0..all.len() {
            if i != j {
                assert_ne!(all[i].describe(), all[j].describe());
            }
        }
    }
}
