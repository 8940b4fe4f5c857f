#!/usr/bin/env python3
"""Prints the fade table of src/utils/fade_table.rs.

duty[step] = round(1023 * (1 - step / 239) ** 2.2) for step in 0..240,
rounding halves away from zero.
"""
from decimal import Decimal, ROUND_HALF_UP

STEPS = 240
MAX_DUTY = 1023
GAMMA = 2.2


def table():
    out = []
    for step in range(STEPS):
        x = MAX_DUTY * (1 - step / (STEPS - 1)) ** GAMMA
        out.append(int(Decimal(x).quantize(Decimal(1), rounding=ROUND_HALF_UP)))
    return out


if __name__ == "__main__":
    print(", ".join(str(d) for d in table()))
